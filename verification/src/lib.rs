//! Culling and pacing for a renderer of a large isometric tile map.
//!
//! The map is drawn by instancing one quad per tile. Before anything reaches the
//! draw, the tiles that the camera cannot see are left out: the camera's viewport is
//! turned into a rectangle of the tile grid ([`camera`]), the rectangle into the
//! parameters of a culling pass ([`compute_params`]), and the number of tiles that
//! the pass will find visible is counted on the processor ([`tile_counter`]), so that
//! the draw knows how many instances to read ([`frame`]). A loop with a fixed
//! timestep drives all of this ([`timestep`], [`simulation`]) from the state of the
//! keys ([`input`]).
//!
//! The library computes; it neither opens a window nor talks to a graphics device.
//! Positions are whole world units, zoom is held in thousandths and time in
//! nanoseconds, so every result is exact.

pub mod assets;
pub mod camera;
pub mod compute_params;
pub mod fps_counter;
pub mod frame;
pub mod geometry;
pub mod input;
pub mod map;
pub mod projection;
pub mod simulation;
pub mod tile_counter;
pub mod timestep;
