use isogrid::camera::{
    adjust_zoom, apply_command, camera_command, update_input, update_visible_area, CameraCommand,
    CameraKeys, CustomCamera, ScreenSize, ZoomChange, CAMERA_STEP, MAX_ZOOM, MIN_ZOOM, UNIT_ZOOM,
};
use isogrid::input::Input;
use isogrid::projection::{TilePos, VisibleArea, WorldPos};

fn start_camera() -> CustomCamera {
    CustomCamera::new(TilePos { x: 100, y: 100 }, ScreenSize { width: 800, height: 600 })
}

fn keys() -> CameraKeys<u32> {
    CameraKeys { up: 1, down: 2, right: 3, left: 4, zoom_out: 5, zoom_in: 6 }
}

fn idle() -> CameraCommand {
    CameraCommand { up: false, down: false, right: false, left: false, zoom: ZoomChange::Keep }
}

#[test]
fn new_camera_looks_at_the_tile() {
    let camera = start_camera();
    assert_eq!(camera.position, WorldPos { x: 0, y: 1600 });
    assert_eq!(camera.zoom, UNIT_ZOOM);
    assert_eq!(camera.size, ScreenSize { width: 800, height: 600 });
    assert!(camera.changed);
    assert!(camera.is_wf());
    assert!(camera.is_movable());
}

#[test]
fn new_camera_knows_its_visible_area() {
    // The top right corner (400, 1300) lies on tile (93, 68); the viewport is 50 half
    // tiles wide and 37 tiles high.
    let camera = start_camera();
    assert_eq!(camera.visible_area, VisibleArea { x: 89, y: 64, width: 58, height: 45 });
}

#[test]
fn visible_area_grows_as_the_camera_zooms_out() {
    let mut camera = start_camera();
    camera.zoom = 500;
    update_visible_area(&mut camera);
    assert_eq!(camera.visible_area, VisibleArea { x: 83, y: 33, width: 108, height: 83 });
    camera.zoom = MIN_ZOOM;
    update_visible_area(&mut camera);
    assert_eq!(camera.visible_area, VisibleArea { x: 46, y: -154, width: 408, height: 308 });
    camera.zoom = MAX_ZOOM;
    update_visible_area(&mut camera);
    assert_eq!(camera.visible_area, VisibleArea { x: 95, y: 91, width: 15, height: 13 });
}

#[test]
fn visible_area_of_an_empty_screen_is_the_margin() {
    let camera = CustomCamera::new(TilePos { x: 100, y: 100 }, ScreenSize { width: 0, height: 0 });
    assert_eq!(camera.visible_area, VisibleArea { x: 96, y: 96, width: 8, height: 8 });
}

#[test]
fn visible_area_is_the_same_when_computed_again() {
    let mut camera = start_camera();
    let first = camera.visible_area;
    update_visible_area(&mut camera);
    assert_eq!(camera.visible_area, first);
    let before = camera;
    update_visible_area(&mut camera);
    assert_eq!(camera, before);
}

#[test]
fn update_projection_takes_in_the_new_size() {
    let mut camera = start_camera();
    camera.update_projection(ScreenSize { width: 1024, height: 768 });
    assert_eq!(camera.size, ScreenSize { width: 1024, height: 768 });
    assert_eq!(camera.visible_area, VisibleArea { x: 88, y: 56, width: 72, height: 56 });
    assert_eq!(camera.position, WorldPos { x: 0, y: 1600 });
    assert!(camera.changed);
}

#[test]
fn adjust_zoom_keeps_the_zoom_in_its_range() {
    assert_eq!(adjust_zoom(62), MIN_ZOOM);
    assert_eq!(adjust_zoom(0), MIN_ZOOM);
    assert_eq!(adjust_zoom(125), 125);
    assert_eq!(adjust_zoom(1000), 1000);
    assert_eq!(adjust_zoom(6400), 6400);
    assert_eq!(adjust_zoom(8000), MAX_ZOOM);
}

#[test]
fn zooming_out_stops_at_the_least_zoom() {
    let mut camera = start_camera();
    let halve = CameraCommand { zoom: ZoomChange::Halve, ..idle() };
    let mut seen = Vec::new();
    for _ in 0..5 {
        apply_command(&mut camera, halve);
        seen.push(camera.zoom);
    }
    assert_eq!(seen, vec![500, 250, 125, 125, 125]);
}

#[test]
fn zooming_in_stops_at_the_greatest_zoom() {
    let mut camera = start_camera();
    let double = CameraCommand { zoom: ZoomChange::Double, ..idle() };
    let halve = CameraCommand { zoom: ZoomChange::Halve, ..idle() };
    let mut seen = Vec::new();
    for _ in 0..4 {
        apply_command(&mut camera, double);
        seen.push(camera.zoom);
    }
    assert_eq!(seen, vec![2000, 4000, 6400, 6400]);
    seen.clear();
    for _ in 0..6 {
        apply_command(&mut camera, halve);
        seen.push(camera.zoom);
    }
    assert_eq!(seen, vec![3200, 1600, 800, 400, 200, 125]);
}

#[test]
fn held_keys_move_the_camera() {
    let mut camera = start_camera();
    apply_command(&mut camera, CameraCommand { up: true, right: true, ..idle() });
    assert_eq!(camera.position, WorldPos { x: CAMERA_STEP, y: 1600 - CAMERA_STEP });
    apply_command(&mut camera, CameraCommand { down: true, left: true, ..idle() });
    assert_eq!(camera.position, WorldPos { x: 0, y: 1600 });
    apply_command(&mut camera, CameraCommand { right: true, ..idle() });
    assert_eq!(camera.position, WorldPos { x: 10, y: 1600 });
    assert_eq!(camera.visible_area, VisibleArea { x: 90, y: 64, width: 58, height: 45 });
}

#[test]
fn opposite_keys_cancel_but_count_as_a_change() {
    let mut camera = start_camera();
    apply_command(&mut camera, idle());
    camera.visible_area = VisibleArea { x: 0, y: 0, width: 0, height: 0 };
    apply_command(&mut camera, CameraCommand { up: true, down: true, ..idle() });
    assert_eq!(camera.position, WorldPos { x: 0, y: 1600 });
    assert_eq!(camera.visible_area, VisibleArea { x: 89, y: 64, width: 58, height: 45 });
}

#[test]
fn first_step_takes_the_change_as_seen() {
    let mut camera = start_camera();
    assert!(camera.changed);
    apply_command(&mut camera, idle());
    assert!(!camera.changed);
}

#[test]
fn idle_step_leaves_an_unchanged_camera_alone() {
    let mut camera = start_camera();
    apply_command(&mut camera, idle());
    // A rectangle that is out of date stays so while nothing changes.
    camera.visible_area = VisibleArea { x: 1, y: 2, width: 3, height: 4 };
    let before = camera;
    apply_command(&mut camera, idle());
    assert_eq!(camera, before);
}

#[test]
fn step_moves_then_zooms_then_projects() {
    let mut camera = start_camera();
    apply_command(&mut camera, CameraCommand { up: true, zoom: ZoomChange::Double, ..idle() });
    assert_eq!(camera.position, WorldPos { x: 0, y: 1590 });
    assert_eq!(camera.zoom, 2000);
    assert_eq!(camera.visible_area, VisibleArea { x: 92, y: 79, width: 33, height: 26 });
    assert!(!camera.changed);
}

#[test]
fn command_reads_held_and_fresh_keys() {
    let mut input: Input<u32> = Input::default();
    assert_eq!(camera_command(&keys(), &input), idle());
    input.press(1);
    input.press(4);
    input.press(6);
    let command = camera_command(&keys(), &input);
    assert_eq!(
        command,
        CameraCommand { up: true, down: false, right: false, left: true, zoom: ZoomChange::Double }
    );
    input.clear();
    let command = camera_command(&keys(), &input);
    assert_eq!(command, CameraCommand { up: true, left: true, ..idle() });
}

#[test]
fn zooming_out_wins_over_zooming_in() {
    let mut input: Input<u32> = Input::default();
    input.press(6);
    input.press(5);
    assert_eq!(camera_command(&keys(), &input).zoom, ZoomChange::Halve);
}

#[test]
fn update_input_runs_the_command_of_the_keys() {
    let mut input: Input<u32> = Input::default();
    input.press(2);
    input.press(5);
    let mut camera = start_camera();
    update_input(&mut camera, &keys(), &input);
    assert_eq!(camera.position, WorldPos { x: 0, y: 1610 });
    assert_eq!(camera.zoom, 500);
    assert!(!camera.changed);
    input.clear();
    update_input(&mut camera, &keys(), &input);
    assert_eq!(camera.position, WorldPos { x: 0, y: 1620 });
    assert_eq!(camera.zoom, 500);
}

#[test]
fn camera_at_the_edge_of_the_world_cannot_move() {
    let mut camera = start_camera();
    camera.position.x = 0x8000_0000 - 5;
    assert!(camera.is_wf());
    assert!(!camera.is_movable());
    camera.position.x = 0x8000_0000 + 1;
    assert!(!camera.is_wf());
    camera.position.x = 0;
    camera.zoom = 124;
    assert!(!camera.is_wf());
    camera.zoom = 6401;
    assert!(!camera.is_wf());
}

#[test]
fn any_zoom_between_the_least_and_the_greatest_is_taken() {
    let mut camera = start_camera();
    camera.zoom = 300;
    assert!(camera.is_wf());
    update_visible_area(&mut camera);
    assert_eq!(camera.visible_area, VisibleArea { x: 75, y: -8, width: 174, height: 133 });
    apply_command(&mut camera, CameraCommand { zoom: ZoomChange::Halve, ..idle() });
    assert_eq!(camera.zoom, 150);
    apply_command(&mut camera, CameraCommand { zoom: ZoomChange::Halve, ..idle() });
    assert_eq!(camera.zoom, 125);
}

#[test]
fn rectangle_that_is_out_of_date_does_not_matter() {
    let mut camera = start_camera();
    camera.visible_area = VisibleArea { x: 0, y: 0, width: -7, height: i32::MAX };
    assert!(camera.is_wf());
    assert!(!camera.is_area_in_range());
    update_visible_area(&mut camera);
    assert_eq!(camera.visible_area, VisibleArea { x: 89, y: 64, width: 58, height: 45 });
    camera.visible_area = VisibleArea { x: 0, y: 0, width: -7, height: i32::MAX };
    camera.update_projection(ScreenSize { width: 1024, height: 768 });
    assert_eq!(camera.visible_area, VisibleArea { x: 88, y: 56, width: 72, height: 56 });
    assert!(camera.is_area_in_range());
}

#[test]
fn same_size_taken_in_twice_changes_nothing_more() {
    let mut camera = start_camera();
    camera.update_projection(ScreenSize { width: 1024, height: 768 });
    let once = camera;
    camera.update_projection(ScreenSize { width: 1024, height: 768 });
    assert_eq!(camera, once);
}
