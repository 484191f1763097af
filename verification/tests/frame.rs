use isogrid::compute_params::{update_compute_params, ComputeParamsUniform};
use isogrid::camera::{CustomCamera, ScreenSize};
use isogrid::frame::{
    plan_frame, render_outcome, surface_size_is_valid, FrameAction, FramePlan, SurfaceFailure,
};
use isogrid::projection::TilePos;
use isogrid::tile_counter::calc_visible_tiles;

fn params(start: [i32; 2], columns: i32, rows: i32) -> ComputeParamsUniform {
    ComputeParamsUniform { start_pos: start, map_size: [200, 200], columns, rows }
}

#[test]
fn plan_counts_work_groups_and_instances() {
    let plan = plan_frame(&params([89, 64], 64, 48));
    assert_eq!(
        plan,
        FramePlan { workgroups_x: 4, workgroups_y: 6, workgroups_z: 1, vertices: 6, instances: 3072 }
    );
    let plan = plan_frame(&params([100, 100], 16, 8));
    assert_eq!(
        plan,
        FramePlan { workgroups_x: 1, workgroups_y: 1, workgroups_z: 1, vertices: 6, instances: 128 }
    );
}

#[test]
fn plan_draws_what_the_counter_counts() {
    for start in [[-40, 20], [0, 0], [43, 109], [190, 190], [250, 10]] {
        let plan = plan_frame(&params(start, 32, 16));
        let count = calc_visible_tiles(start[0], start[1], 32, 16, 200, 200);
        assert_eq!(plan.instances as i64, count);
        assert!(plan.instances <= 32 * 16);
    }
}

#[test]
fn plan_of_the_first_frame_is_that_of_later_frames() {
    let camera = CustomCamera::new(TilePos { x: 100, y: 100 }, ScreenSize { width: 800, height: 600 });
    let mut params = ComputeParamsUniform::new(&camera.visible_area);
    let first = plan_frame(&params);
    assert_eq!((first.workgroups_x, first.workgroups_y), (4, 6));
    assert_eq!(first.instances, 3072);
    update_compute_params(&mut params, &camera.visible_area);
    assert_eq!(plan_frame(&params), first);
}

#[test]
fn plan_of_an_empty_diamond_draws_nothing() {
    let plan = plan_frame(&params([100, 100], 0, 0));
    assert_eq!(
        plan,
        FramePlan { workgroups_x: 0, workgroups_y: 0, workgroups_z: 1, vertices: 6, instances: 0 }
    );
}

#[test]
fn shown_frame_lets_the_loop_go_on() {
    assert_eq!(render_outcome(Ok(())), FrameAction::Continue);
}

#[test]
fn lost_or_outdated_surface_is_configured_anew() {
    assert_eq!(render_outcome(Err(SurfaceFailure::Lost)), FrameAction::Resize);
    assert_eq!(render_outcome(Err(SurfaceFailure::Outdated)), FrameAction::Resize);
}

#[test]
fn out_of_memory_ends_the_loop() {
    assert_eq!(render_outcome(Err(SurfaceFailure::OutOfMemory)), FrameAction::Exit);
}

#[test]
fn timeout_skips_the_frame() {
    assert_eq!(render_outcome(Err(SurfaceFailure::Timeout)), FrameAction::Skip);
}

#[test]
fn surface_without_pixels_is_not_configured() {
    assert!(surface_size_is_valid(800, 600));
    assert!(surface_size_is_valid(1, 1));
    assert!(!surface_size_is_valid(0, 600));
    assert!(!surface_size_is_valid(800, 0));
    assert!(!surface_size_is_valid(0, 0));
}
