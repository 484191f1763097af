[package]
name = "isogrid"
version = "0.1.0"
edition = "2021"
publish = false

[dependencies]
rand = "0.8"
cgmath = "0.18"
bytemuck = { version = "1", features = ["derive"] }
wgpu = "0.15"
winit = "0.28"
bevy_ecs = { version = "0.10", default-features = false }
bevy_utils = "0.10"
instant = "0.1"
log = "0.4"
env_logger = "0.10"
thiserror = "1"
downcast-rs = "1"
image = { version = "0.24", default-features = false, features = ["png"] }
