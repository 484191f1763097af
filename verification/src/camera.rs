//! The camera: where it looks, how far it is zoomed in, and which rectangle of tiles
//! its viewport shows.
//!
//! The camera's position is held in whole world units and its zoom in thousandths,
//! so all that follows from them is exact. The view maps a world position `p` to the
//! screen position `(p - position) * zoom + size / 2`: the camera's position is shown
//! at the middle of the screen. The viewport's corners are therefore the world
//! positions `position + (2 * s - size) * 500 / zoom` for the screen corners `s`, with
//! `zoom` in thousandths. Corners are carried as numerators over the denominator
//! `zoom`, which keeps them whole.

use crate::input::Input;
use crate::projection::{
    div_toward_zero, divide_toward_zero, map_to_screen_pos_centered, tile_of_fraction,
    world_of_tile_centered, TilePos, VisibleArea, WorldPos, HALF_TILE_WIDTH, TILE_HEIGHT,
    TILE_WIDTH, VISIBLE_MARGIN, WORLD_LIMIT,
};
use std::hash::Hash;
use vstd::math::{max, min};
use vstd::prelude::*;
use vstd::std_specs::hash::obeys_key_model;

verus! {

/// The zoom at which one world unit is one pixel, in thousandths.
pub const UNIT_ZOOM: u32 = 1000;

/// The least zoom, in thousandths: an eighth.
pub const MIN_ZOOM: u32 = 125;

/// The greatest zoom, in thousandths: six and two fifths.
pub const MAX_ZOOM: u32 = 6400;

/// The distance, in world units, that the camera moves in one step of the simulation
/// while a key is held.
pub const CAMERA_STEP: i64 = 10;

/// The largest magnitude of a coordinate of a tile at which a new camera can look.
pub const TILE_LIMIT: i32 = 0x200_0000;

/// The greatest width and height of a screen, in pixels.
pub const SCREEN_LIMIT: u32 = 0x8000;

/// The greatest extent of a rectangle of visible tiles: the tiles that fit on the
/// largest screen at the least zoom, and the margin on both sides.
pub const AREA_LIMIT: i32 = 0x4008;

/// The size of the screen, in pixels.
#[derive(Clone, Copy, Debug, PartialEq, Eq, Structural)]
pub struct ScreenSize {
    pub width: u32,
    pub height: u32,
}

/// The keys that steer the camera.
#[derive(Debug)]
pub struct CameraKeys<T> {
    pub up: T,
    pub down: T,
    pub right: T,
    pub left: T,
    pub zoom_out: T,
    pub zoom_in: T,
}

/// What a step of the simulation does to the zoom.
#[derive(Clone, Copy, Debug, PartialEq, Eq, Structural)]
pub enum ZoomChange {
    Keep,
    Halve,
    Double,
}

/// What the keys ask of the camera in one step of the simulation.
#[derive(Clone, Copy, Debug, PartialEq, Eq, Structural)]
pub struct CameraCommand {
    pub up: bool,
    pub down: bool,
    pub right: bool,
    pub left: bool,
    pub zoom: ZoomChange,
}

/// The state of the camera.
///
/// `changed` says that position, zoom or size have changed since the matrices that
/// are derived from them were last brought up to date.
#[derive(Clone, Copy, Debug, PartialEq, Eq, Structural)]
pub struct CustomCamera {
    pub position: WorldPos,
    pub zoom: u32,
    pub size: ScreenSize,
    pub visible_area: VisibleArea,
    pub changed: bool,
}

/// Whether `zoom` is one of the zooms that halving and doubling reach from
/// `UNIT_ZOOM`: the least zoom doubled up to five times, or the greatest zoom halved
/// up to five times.
pub open spec fn is_zoom_level(zoom: int) -> bool {
    ||| zoom == 125
    ||| zoom == 250
    ||| zoom == 500
    ||| zoom == 1000
    ||| zoom == 2000
    ||| zoom == 4000
    ||| zoom == 200
    ||| zoom == 400
    ||| zoom == 800
    ||| zoom == 1600
    ||| zoom == 3200
    ||| zoom == 6400
}

/// `zoom`, brought back into the range from `MIN_ZOOM` to `MAX_ZOOM`.
pub open spec fn adjusted_zoom(zoom: int) -> int {
    if zoom < MIN_ZOOM {
        MIN_ZOOM as int
    } else if zoom > MAX_ZOOM {
        MAX_ZOOM as int
    } else {
        zoom
    }
}

/// The zoom after a step of the simulation: kept, halved or doubled, and brought back
/// into its range. Half of an odd number of thousandths is rounded down.
pub open spec fn zoom_after(zoom: int, change: ZoomChange) -> int {
    match change {
        ZoomChange::Keep => zoom,
        ZoomChange::Halve => adjusted_zoom(zoom / 2),
        ZoomChange::Double => adjusted_zoom(zoom * 2),
    }
}

/// Halving and doubling lead from one zoom level to another, and no zoom level that
/// halving keeps within the range is odd: nothing is lost in halving it.
pub proof fn lemma_zoom_levels(zoom: int, change: ZoomChange)
    requires
        is_zoom_level(zoom),
    ensures
        is_zoom_level(zoom_after(zoom, change)),
        MIN_ZOOM <= zoom_after(zoom, change) <= MAX_ZOOM,
        change == ZoomChange::Halve && zoom / 2 >= MIN_ZOOM ==> 2 * zoom_after(zoom, change)
            == zoom,
{
}

/// A corner of the viewport in the world, as numerators over the denominator `zoom`:
/// the world position that is shown at the screen position `(screen_x, screen_y)`.
pub open spec fn scaled_corner(
    position: WorldPos,
    zoom: int,
    size: ScreenSize,
    screen_x: int,
    screen_y: int,
) -> (int, int) {
    (
        position.x * zoom + (2 * screen_x - size.width) * 500,
        position.y * zoom + (2 * screen_y - size.height) * 500,
    )
}

/// The rectangle of tiles that the viewport shows.
///
/// All four corners of the screen are taken into the world, and their bounding box
/// is formed. The rectangle starts at the tile under the top right corner of the box.
/// Its width is the number of half tiles across the box, its height the number of
/// tiles down it, and it is widened by `VISIBLE_MARGIN` tiles on every side.
pub open spec fn projected_area(position: WorldPos, zoom: int, size: ScreenSize) -> (
    int,
    int,
    int,
    int,
) {
    let tl = scaled_corner(position, zoom, size, 0, 0);
    let tr = scaled_corner(position, zoom, size, size.width as int, 0);
    let bl = scaled_corner(position, zoom, size, 0, size.height as int);
    let br = scaled_corner(position, zoom, size, size.width as int, size.height as int);
    let min_x = min(tl.0, min(tr.0, min(bl.0, br.0)));
    let min_y = min(tl.1, min(tr.1, min(bl.1, br.1)));
    let max_x = max(tl.0, max(tr.0, max(bl.0, br.0)));
    let max_y = max(tl.1, max(tr.1, max(bl.1, br.1)));
    let (tile_x, tile_y) = tile_of_fraction(max_x, min_y, zoom);
    (
        tile_x - VISIBLE_MARGIN,
        tile_y - VISIBLE_MARGIN,
        (max_x - min_x) / (HALF_TILE_WIDTH * zoom) + 2 * VISIBLE_MARGIN,
        (max_y - min_y) / (TILE_HEIGHT * zoom) + 2 * VISIBLE_MARGIN,
    )
}

/// The bounding box of the four corners is spanned by the top left and the bottom
/// right corner alone: the view neither turns nor mirrors the world.
pub proof fn lemma_box_of_two_corners(position: WorldPos, zoom: int, size: ScreenSize)
    ensures
        ({
            let tl = scaled_corner(position, zoom, size, 0, 0);
            let br = scaled_corner(position, zoom, size, size.width as int, size.height as int);
            let (tile_x, tile_y) = tile_of_fraction(br.0, tl.1, zoom);
            projected_area(position, zoom, size) == (
                tile_x - VISIBLE_MARGIN,
                tile_y - VISIBLE_MARGIN,
                (br.0 - tl.0) / (HALF_TILE_WIDTH * zoom) + 2 * VISIBLE_MARGIN,
                (br.1 - tl.1) / (TILE_HEIGHT * zoom) + 2 * VISIBLE_MARGIN,
            )
        }),
{
}

impl CameraCommand {
    /// Whether the command moves the camera or changes its zoom.
    pub open spec fn acts(&self) -> bool {
        self.up || self.down || self.right || self.left || self.zoom != ZoomChange::Keep
    }
}

impl CustomCamera {
    /// Whether the camera lies within `WORLD_LIMIT` of the origin, its zoom lies
    /// between `MIN_ZOOM` and `MAX_ZOOM`, and its screen is no larger than
    /// `SCREEN_LIMIT` either way.
    pub open spec fn wf(&self) -> bool {
        &&& -WORLD_LIMIT <= self.position.x <= WORLD_LIMIT
        &&& -WORLD_LIMIT <= self.position.y <= WORLD_LIMIT
        &&& MIN_ZOOM <= self.zoom <= MAX_ZOOM
        &&& self.size.width <= SCREEN_LIMIT
        &&& self.size.height <= SCREEN_LIMIT
    }

    /// Whether the rectangle of visible tiles has no negative extent and none above
    /// `AREA_LIMIT`. The rectangle that a well-formed camera shows is such a one.
    pub open spec fn area_in_range(&self) -> bool {
        &&& 0 <= self.visible_area.width <= AREA_LIMIT
        &&& 0 <= self.visible_area.height <= AREA_LIMIT
    }

    /// Whether a step in any direction leaves the camera within `WORLD_LIMIT` of the
    /// origin.
    pub open spec fn can_move(&self) -> bool {
        &&& -WORLD_LIMIT + CAMERA_STEP <= self.position.x <= WORLD_LIMIT - CAMERA_STEP
        &&& -WORLD_LIMIT + CAMERA_STEP <= self.position.y <= WORLD_LIMIT - CAMERA_STEP
    }

    /// Whether the rectangle of visible tiles is the one that the viewport shows.
    pub open spec fn area_is_current(&self) -> bool {
        (
            self.visible_area.x as int,
            self.visible_area.y as int,
            self.visible_area.width as int,
            self.visible_area.height as int,
        ) == projected_area(self.position, self.zoom as int, self.size)
    }

    /// The camera with its rectangle of visible tiles brought up to date.
    pub open spec fn with_current_area(self) -> CustomCamera {
        let area = projected_area(self.position, self.zoom as int, self.size);
        CustomCamera {
            visible_area: VisibleArea {
                x: area.0 as i32,
                y: area.1 as i32,
                width: area.2 as i32,
                height: area.3 as i32,
            },
            ..self
        }
    }

    /// The camera after a step of the simulation with the command `command`.
    ///
    /// The camera moves up and down, then right and left, by `CAMERA_STEP` for each
    /// key that is held: opposite keys cancel. Then the zoom changes. If anything has
    /// changed, in this step or before it, the rectangle of visible tiles is brought
    /// up to date and the change is taken as seen.
    pub open spec fn after_command(self, command: CameraCommand) -> CustomCamera {
        let moved = CustomCamera {
            position: WorldPos {
                x: (self.position.x + (if command.right {
                    CAMERA_STEP as int
                } else {
                    0
                }) - (if command.left {
                    CAMERA_STEP as int
                } else {
                    0
                })) as i64,
                y: (self.position.y - (if command.up {
                    CAMERA_STEP as int
                } else {
                    0
                }) + (if command.down {
                    CAMERA_STEP as int
                } else {
                    0
                })) as i64,
            },
            zoom: zoom_after(self.zoom as int, command.zoom) as u32,
            ..self
        };
        if self.changed || command.acts() {
            CustomCamera { changed: false, ..moved.with_current_area() }
        } else {
            moved
        }
    }

    /// Whether the camera lies within `WORLD_LIMIT` of the origin, its zoom lies
    /// between `MIN_ZOOM` and `MAX_ZOOM`, and its screen is no larger than
    /// `SCREEN_LIMIT` either way.
    pub fn is_wf(&self) -> (ok: bool)
        ensures
            ok == self.wf(),
    {
        -WORLD_LIMIT <= self.position.x && self.position.x <= WORLD_LIMIT && -WORLD_LIMIT
            <= self.position.y && self.position.y <= WORLD_LIMIT && MIN_ZOOM <= self.zoom
            && self.zoom <= MAX_ZOOM && self.size.width <= SCREEN_LIMIT && self.size.height
            <= SCREEN_LIMIT
    }

    /// Whether the rectangle of visible tiles has no negative extent and none above
    /// `AREA_LIMIT`.
    pub fn is_area_in_range(&self) -> (ok: bool)
        ensures
            ok == self.area_in_range(),
    {
        0 <= self.visible_area.width && self.visible_area.width <= AREA_LIMIT && 0
            <= self.visible_area.height && self.visible_area.height <= AREA_LIMIT
    }

    /// Whether a step in any direction leaves the camera within `WORLD_LIMIT` of the
    /// origin.
    pub fn is_movable(&self) -> (ok: bool)
        ensures
            ok == self.can_move(),
    {
        -WORLD_LIMIT + CAMERA_STEP <= self.position.x && self.position.x <= WORLD_LIMIT
            - CAMERA_STEP && -WORLD_LIMIT + CAMERA_STEP <= self.position.y && self.position.y
            <= WORLD_LIMIT - CAMERA_STEP
    }

    /// The camera that looks at the top corner of the tile `(tile_x, tile_y)`, at
    /// `UNIT_ZOOM`. Its rectangle of visible tiles is up to date, and it counts as
    /// changed.
    pub open spec fn looking_at(tile_x: int, tile_y: int, screen_size: ScreenSize) -> CustomCamera {
        let (x, y) = world_of_tile_centered(tile_x, tile_y);
        (CustomCamera {
            position: WorldPos { x: x as i64, y: y as i64 },
            zoom: UNIT_ZOOM,
            size: screen_size,
            visible_area: VisibleArea { x: 0, y: 0, width: 0, height: 0 },
            changed: true,
        }).with_current_area()
    }

    /// A camera that looks at the top corner of the tile `pos`, at `UNIT_ZOOM`. Its
    /// rectangle of visible tiles is up to date, and it counts as changed.
    pub fn new(pos: TilePos, screen_size: ScreenSize) -> (camera: Self)
        requires
            screen_size.width <= SCREEN_LIMIT,
            screen_size.height <= SCREEN_LIMIT,
            -TILE_LIMIT <= pos.x <= TILE_LIMIT,
            -TILE_LIMIT <= pos.y <= TILE_LIMIT,
        ensures
            camera == Self::looking_at(pos.x as int, pos.y as int, screen_size),
            camera.area_is_current(),
            camera.area_in_range(),
            camera.wf(),
            camera.can_move(),
    {
        let world_pos = map_to_screen_pos_centered(pos);
        let mut camera = CustomCamera {
            position: world_pos,
            zoom: UNIT_ZOOM,
            size: screen_size,
            visible_area: VisibleArea { x: 0, y: 0, width: 0, height: 0 },
            changed: true,
        };
        update_visible_area(&mut camera);
        camera
    }

    /// Takes in a new size of the screen, and brings the rectangle of visible tiles
    /// up to date.
    pub fn update_projection(&mut self, size: ScreenSize)
        requires
            old(self).wf(),
            size.width <= SCREEN_LIMIT,
            size.height <= SCREEN_LIMIT,
        ensures
            *final(self) == (CustomCamera { size, ..*old(self) }).with_current_area(),
            final(self).area_is_current(),
            final(self).area_in_range(),
            final(self).wf(),
    {
        self.size = size;
        update_visible_area(self);
    }
}

/// `zoom`, brought back into the range from `MIN_ZOOM` to `MAX_ZOOM`.
pub fn adjust_zoom(zoom: u32) -> (adjusted: u32)
    ensures
        adjusted == adjusted_zoom(zoom as int),
{
    if zoom < MIN_ZOOM {
        MIN_ZOOM
    } else if zoom > MAX_ZOOM {
        MAX_ZOOM
    } else {
        zoom
    }
}

fn lesser(a: i64, b: i64) -> (m: i64)
    ensures
        m == min(a as int, b as int),
{
    if a <= b {
        a
    } else {
        b
    }
}

fn greater(a: i64, b: i64) -> (m: i64)
    ensures
        m == max(a as int, b as int),
{
    if a >= b {
        a
    } else {
        b
    }
}

/// Takes a corner of the screen into the world.
fn transform(camera: &CustomCamera, screen_x: u32, screen_y: u32) -> (corner: WorldPos)
    requires
        camera.wf(),
        screen_x <= camera.size.width,
        screen_y <= camera.size.height,
    ensures
        (corner.x as int, corner.y as int) == scaled_corner(
            camera.position,
            camera.zoom as int,
            camera.size,
            screen_x as int,
            screen_y as int,
        ),
        -0x1_0000_0000_0000 <= corner.x <= 0x1_0000_0000_0000,
        -0x1_0000_0000_0000 <= corner.y <= 0x1_0000_0000_0000,
{
    let zoom: i64 = camera.zoom as i64;
    assert(-0x8000_0000 * 6400 <= camera.position.x * zoom <= 0x8000_0000 * 6400)
        by (nonlinear_arith)
        requires
            -0x8000_0000 <= camera.position.x <= 0x8000_0000,
            0 <= zoom <= 6400,
    ;
    assert(-0x8000_0000 * 6400 <= camera.position.y * zoom <= 0x8000_0000 * 6400)
        by (nonlinear_arith)
        requires
            -0x8000_0000 <= camera.position.y <= 0x8000_0000,
            0 <= zoom <= 6400,
    ;
    WorldPos {
        x: camera.position.x * zoom + (2 * (screen_x as i64) - camera.size.width as i64) * 500,
        y: camera.position.y * zoom + (2 * (screen_y as i64) - camera.size.height as i64) * 500,
    }
}

/// Brings the camera's rectangle of visible tiles up to date.
pub fn update_visible_area(camera: &mut CustomCamera)
    requires
        old(camera).wf(),
    ensures
        *final(camera) == old(camera).with_current_area(),
        final(camera).area_is_current(),
        final(camera).area_in_range(),
        final(camera).wf(),
{
    let tl = transform(camera, 0, 0);
    let tr = transform(camera, camera.size.width, 0);
    let bl = transform(camera, 0, camera.size.height);
    let br = transform(camera, camera.size.width, camera.size.height);
    let min_x = lesser(tl.x, lesser(tr.x, lesser(bl.x, br.x)));
    let min_y = lesser(tl.y, lesser(tr.y, lesser(bl.y, br.y)));
    let max_x = greater(tl.x, greater(tr.x, greater(bl.x, br.x)));
    let max_y = greater(tl.y, greater(tr.y, greater(bl.y, br.y)));
    let zoom: i64 = camera.zoom as i64;
    proof {
        lemma_area_fits(camera.position, camera.zoom as int, camera.size);
    }
    let tile_x = divide_toward_zero(2 * min_y + max_x, TILE_WIDTH * zoom);
    let tile_y = divide_toward_zero(2 * min_y - max_x, TILE_WIDTH * zoom);
    let across = (max_x - min_x) / (HALF_TILE_WIDTH * zoom);
    let down = (max_y - min_y) / (TILE_HEIGHT * zoom);
    camera.visible_area = VisibleArea {
        x: (tile_x - VISIBLE_MARGIN as i64) as i32,
        y: (tile_y - VISIBLE_MARGIN as i64) as i32,
        width: (across + 2 * (VISIBLE_MARGIN as i64)) as i32,
        height: (down + 2 * (VISIBLE_MARGIN as i64)) as i32,
    };
}

/// Whether the rectangle of tiles that a camera shows has coordinates that fit in an
/// `i32` and extents from twice the margin to `AREA_LIMIT`.
pub open spec fn area_fits(position: WorldPos, zoom: int, size: ScreenSize) -> bool {
    let area = projected_area(position, zoom, size);
    &&& -0x2000_0000 <= area.0 <= 0x2000_0000
    &&& -0x2000_0000 <= area.1 <= 0x2000_0000
    &&& 2 * VISIBLE_MARGIN <= area.2 <= AREA_LIMIT
    &&& 2 * VISIBLE_MARGIN <= area.3 <= AREA_LIMIT
}

/// A numerator within `bound` times the divisor has a quotient within `bound`.
proof fn lemma_quotient_bound(n: int, d: int, bound: int)
    by (nonlinear_arith)
    requires
        d > 0,
        bound >= 0,
        -bound * d <= n <= bound * d,
    ensures
        -bound <= div_toward_zero(n, d) <= bound,
        n >= 0 ==> 0 <= n / d <= bound,
{
}

/// The rectangle of tiles that a well-formed camera shows has coordinates that fit in
/// an `i32` and extents from twice the margin to `AREA_LIMIT`.
pub proof fn lemma_area_fits(position: WorldPos, zoom: int, size: ScreenSize)
    requires
        -WORLD_LIMIT <= position.x <= WORLD_LIMIT,
        -WORLD_LIMIT <= position.y <= WORLD_LIMIT,
        MIN_ZOOM <= zoom <= MAX_ZOOM,
        size.width <= SCREEN_LIMIT,
        size.height <= SCREEN_LIMIT,
    ensures
        area_fits(position, zoom, size),
{
    lemma_box_of_two_corners(position, zoom, size);
    let tl = scaled_corner(position, zoom, size, 0, 0);
    let br = scaled_corner(position, zoom, size, size.width as int, size.height as int);
    assert(br.0 - tl.0 == 1000 * size.width);
    assert(br.1 - tl.1 == 1000 * size.height);
    assert(2 * tl.1 + br.0 == (2 * position.y + position.x) * zoom + 500 * size.width - 1000
        * size.height) by (nonlinear_arith)
        requires
            tl.1 == position.y * zoom - size.height * 500,
            br.0 == position.x * zoom + size.width * 500,
    ;
    assert(2 * tl.1 - br.0 == (2 * position.y - position.x) * zoom - 500 * size.width - 1000
        * size.height) by (nonlinear_arith)
        requires
            tl.1 == position.y * zoom - size.height * 500,
            br.0 == position.x * zoom + size.width * 500,
    ;
    let both = 2 * position.y + position.x;
    let either = 2 * position.y - position.x;
    assert(-0x1_8000_0000 * zoom <= both * zoom <= 0x1_8000_0000 * zoom) by (nonlinear_arith)
        requires
            -0x1_8000_0000 <= both <= 0x1_8000_0000,
            zoom > 0,
    ;
    assert(-0x1_8000_0000 * zoom <= either * zoom <= 0x1_8000_0000 * zoom) by (nonlinear_arith)
        requires
            -0x1_8000_0000 <= either <= 0x1_8000_0000,
            zoom > 0,
    ;
    lemma_quotient_bound(2 * tl.1 + br.0, TILE_WIDTH * zoom, 0x1000_0000);
    lemma_quotient_bound(2 * tl.1 - br.0, TILE_WIDTH * zoom, 0x1000_0000);
    lemma_quotient_bound(br.1 - tl.1, TILE_HEIGHT * zoom, 0x4000);
    lemma_quotient_bound(br.0 - tl.0, HALF_TILE_WIDTH * zoom, 0x4000);
}

/// A step of the simulation leads from one zoom level to another: a camera that
/// starts at `UNIT_ZOOM` never has another zoom than the twelve levels.
pub proof fn lemma_steps_keep_zoom_level(camera: CustomCamera, command: CameraCommand)
    requires
        is_zoom_level(camera.zoom as int),
    ensures
        is_zoom_level(camera.after_command(command).zoom as int),
        is_zoom_level(UNIT_ZOOM as int),
{
    lemma_zoom_levels(camera.zoom as int, command.zoom);
}

/// Taking in the same size of the screen twice leaves the camera as taking it in
/// once leaves it.
pub proof fn lemma_update_projection_idempotent(camera: CustomCamera, size: ScreenSize)
    ensures
        ({
            let once = (CustomCamera { size, ..camera }).with_current_area();
            (CustomCamera { size, ..once }).with_current_area() == once
        }),
{
}

/// Bringing the rectangle of visible tiles up to date twice gives what doing so once
/// gives: the rectangle follows from position, zoom and size alone.
pub proof fn lemma_projector_idempotent(camera: CustomCamera)
    ensures
        camera.with_current_area().with_current_area() == camera.with_current_area(),
        camera.with_current_area().position == camera.position,
        camera.with_current_area().zoom == camera.zoom,
        camera.with_current_area().size == camera.size,
        camera.with_current_area().changed == camera.changed,
{
}

/// A camera that has not changed, and of which the keys ask nothing, is left as it is.
pub proof fn lemma_idle_step_changes_nothing(camera: CustomCamera, command: CameraCommand)
    requires
        !camera.changed,
        !command.acts(),
    ensures
        camera.after_command(command) == camera,
{
}

/// What the keys ask of the camera: a direction for each key that is held, and a
/// change of zoom for a key that has just been pressed, zooming out before zooming in.
pub open spec fn command_of<T>(keys: CameraKeys<T>, pressed: Set<T>, just_pressed: Set<T>) -> CameraCommand {
    CameraCommand {
        up: pressed.contains(keys.up),
        down: pressed.contains(keys.down),
        right: pressed.contains(keys.right),
        left: pressed.contains(keys.left),
        zoom: if just_pressed.contains(keys.zoom_out) {
            ZoomChange::Halve
        } else if just_pressed.contains(keys.zoom_in) {
            ZoomChange::Double
        } else {
            ZoomChange::Keep
        },
    }
}

/// Reads from the state of the keys what they ask of the camera.
pub fn camera_command<T: Copy + Eq + Hash>(keys: &CameraKeys<T>, keyboard_input: &Input<T>) -> (command:
    CameraCommand)
    requires
        obeys_key_model::<T>(),
    ensures
        command == command_of(
            *keys,
            keyboard_input.pressed_set(),
            keyboard_input.just_pressed_set(),
        ),
{
    let zoom = if keyboard_input.just_pressed(keys.zoom_out) {
        ZoomChange::Halve
    } else if keyboard_input.just_pressed(keys.zoom_in) {
        ZoomChange::Double
    } else {
        ZoomChange::Keep
    };
    CameraCommand {
        up: keyboard_input.pressed(keys.up),
        down: keyboard_input.pressed(keys.down),
        right: keyboard_input.pressed(keys.right),
        left: keyboard_input.pressed(keys.left),
        zoom,
    }
}

/// Moves one coordinate of the camera by `camera_speed` if the key is held, and says
/// whether it did.
fn check_input(camera_position: &mut i64, held: bool, camera_speed: i64) -> (moved: bool)
    requires
        i64::MIN <= *old(camera_position) + camera_speed <= i64::MAX,
    ensures
        moved == held,
        *final(camera_position) == if held {
            *old(camera_position) + camera_speed
        } else {
            *old(camera_position) as int
        },
{
    if !held {
        return false;
    }
    *camera_position = *camera_position + camera_speed;
    true
}

/// Runs a step of the simulation on the camera with the command `command`.
pub fn apply_command(camera: &mut CustomCamera, command: CameraCommand)
    requires
        old(camera).wf(),
        old(camera).can_move(),
    ensures
        *final(camera) == old(camera).after_command(command),
        final(camera).wf(),
        old(camera).changed || command.acts() ==> final(camera).area_is_current()
            && final(camera).area_in_range(),
        old(camera).area_in_range() ==> final(camera).area_in_range(),
{
    let mut changed = camera.changed;
    let mut position = camera.position;
    let up = check_input(&mut position.y, command.up, -CAMERA_STEP);
    let down = check_input(&mut position.y, command.down, CAMERA_STEP);
    let right = check_input(&mut position.x, command.right, CAMERA_STEP);
    let left = check_input(&mut position.x, command.left, -CAMERA_STEP);
    changed = changed || up || down || right || left;
    camera.position = position;
    match command.zoom {
        ZoomChange::Halve => {
            camera.zoom = adjust_zoom(camera.zoom / 2);
            changed = true;
        },
        ZoomChange::Double => {
            camera.zoom = adjust_zoom(camera.zoom * 2);
            changed = true;
        },
        ZoomChange::Keep => {},
    }
    camera.changed = changed;
    if camera.changed {
        camera.changed = false;
        update_visible_area(camera);
    }
}

/// Runs a step of the simulation on the camera: reads the keys, moves and zooms, and
/// brings the rectangle of visible tiles up to date if anything has changed.
pub fn update_input<T: Copy + Eq + Hash>(
    camera: &mut CustomCamera,
    keys: &CameraKeys<T>,
    keyboard_input: &Input<T>,
)
    requires
        obeys_key_model::<T>(),
        old(camera).wf(),
        old(camera).can_move(),
    ensures
        *final(camera) == old(camera).after_command(
            command_of(*keys, keyboard_input.pressed_set(), keyboard_input.just_pressed_set()),
        ),
        final(camera).wf(),
        old(camera).area_in_range() ==> final(camera).area_in_range(),
{
    let command = camera_command(keys, keyboard_input);
    apply_command(camera, command);
}

} // verus!
