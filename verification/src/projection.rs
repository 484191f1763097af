//! The isometric projection between the tile grid and the world.
//!
//! World positions are whole world units: one unit is one pixel at zoom 1. A tile is
//! `TILE_WIDTH` units wide and `TILE_HEIGHT` units high, and the tile one step along
//! the grid's x axis lies half a tile to the right and half a tile down.

use vstd::prelude::*;

verus! {

/// The width of a tile, in world units.
pub const TILE_WIDTH: i64 = 32;

/// The height of a tile, in world units.
pub const TILE_HEIGHT: i64 = 16;

/// Half the width of a tile, in world units.
pub const HALF_TILE_WIDTH: i64 = 16;

/// Half the height of a tile, in world units.
pub const HALF_TILE_HEIGHT: i64 = 8;

/// The number of tiles by which the visible rectangle is widened on every side, to
/// take in tiles that rounding has cut off and tiles that are visible in part.
pub const VISIBLE_MARGIN: i32 = 4;

/// The largest magnitude of a world coordinate for which the tile under a position
/// can be named.
pub const WORLD_LIMIT: i64 = 0x8000_0000;

/// A position on the tile grid.
#[derive(Clone, Copy, Debug, PartialEq, Eq, Structural)]
pub struct TilePos {
    pub x: i32,
    pub y: i32,
}

/// A position in the world, in whole world units.
#[derive(Clone, Copy, Debug, PartialEq, Eq, Structural)]
pub struct WorldPos {
    pub x: i64,
    pub y: i64,
}

/// The rectangle of the tile grid that the viewport shows, margin included.
///
/// `(x, y)` is the tile at the viewport's top right corner, from which the diamond
/// is laid out. `width` is the extent across the viewport, two for each tile's width;
/// `height` is the extent down the viewport, one for each tile's height.
#[derive(Clone, Copy, Debug, PartialEq, Eq, Structural)]
pub struct VisibleArea {
    pub x: i32,
    pub y: i32,
    pub width: i32,
    pub height: i32,
}

/// The quotient of `n` by `d`, rounded toward zero.
pub open spec fn div_toward_zero(n: int, d: int) -> int {
    if n >= 0 {
        n / d
    } else {
        -((-n) / d)
    }
}

/// The world position at which the tile `(x, y)` is drawn.
pub open spec fn world_of_tile(x: int, y: int) -> (int, int) {
    (
        HALF_TILE_WIDTH * x - HALF_TILE_WIDTH * y,
        HALF_TILE_HEIGHT * x + HALF_TILE_HEIGHT * y + HALF_TILE_HEIGHT,
    )
}

/// The world position of the top corner of the tile `(x, y)`.
pub open spec fn world_of_tile_centered(x: int, y: int) -> (int, int) {
    (HALF_TILE_WIDTH * x - HALF_TILE_WIDTH * y, HALF_TILE_HEIGHT * x + HALF_TILE_HEIGHT * y)
}

/// The tile under the world position `(x, y)`: `y / TILE_HEIGHT + x / TILE_WIDTH` and
/// `y / TILE_HEIGHT - x / TILE_WIDTH`, each computed exactly and then rounded toward
/// zero.
pub open spec fn tile_of_world(x: int, y: int) -> (int, int) {
    (div_toward_zero(2 * y + x, TILE_WIDTH as int), div_toward_zero(2 * y - x, TILE_WIDTH as int))
}

/// The tile under the world position `(x / scale, y / scale)`.
pub open spec fn tile_of_fraction(x: int, y: int, scale: int) -> (int, int) {
    (div_toward_zero(2 * y + x, TILE_WIDTH * scale), div_toward_zero(2 * y - x, TILE_WIDTH * scale))
}

/// Whether both coordinates of a world position are within `WORLD_LIMIT` of zero.
pub open spec fn world_in_range(x: int, y: int) -> bool {
    -WORLD_LIMIT <= x <= WORLD_LIMIT && -WORLD_LIMIT <= y <= WORLD_LIMIT
}

/// The tile under a fraction that is whole is the tile under that whole position.
pub proof fn lemma_tile_of_whole_fraction(x: int, y: int, scale: int)
    requires
        scale > 0,
    ensures
        tile_of_fraction(x * scale, y * scale, scale) == tile_of_world(x, y),
{
    lemma_scaled_quotient(2 * y + x, TILE_WIDTH as int, scale);
    lemma_scaled_quotient(2 * y - x, TILE_WIDTH as int, scale);
    assert(2 * (y * scale) + x * scale == (2 * y + x) * scale) by (nonlinear_arith);
    assert(2 * (y * scale) - x * scale == (2 * y - x) * scale) by (nonlinear_arith);
}

/// Scaling numerator and divisor alike leaves the quotient as it is.
proof fn lemma_scaled_quotient(n: int, d: int, scale: int)
    requires
        d > 0,
        scale > 0,
    ensures
        div_toward_zero(n * scale, d * scale) == div_toward_zero(n, d),
{
    if n >= 0 {
        assert(n * scale >= 0) by (nonlinear_arith)
            requires
                n >= 0,
                scale > 0,
        ;
        vstd::arithmetic::div_mod::lemma_div_multiples_vanish_quotient(scale, n, d);
        assert(scale * n == n * scale && scale * d == d * scale) by (nonlinear_arith);
    } else {
        assert(n * scale < 0) by (nonlinear_arith)
            requires
                n < 0,
                scale > 0,
        ;
        vstd::arithmetic::div_mod::lemma_div_multiples_vanish_quotient(scale, -n, d);
        assert(scale * (-n) == -(n * scale) && scale * d == d * scale) by (nonlinear_arith);
    }
}

/// Converting the top corner of a tile back to the grid gives the tile.
pub proof fn lemma_centered_round_trip(x: int, y: int)
    ensures
        ({
            let (world_x, world_y) = world_of_tile_centered(x, y);
            tile_of_world(world_x, world_y) == (x, y)
        }),
{
}

/// Converting the position of a tile with no negative coordinate back to the grid
/// gives the tile.
pub proof fn lemma_tile_round_trip(x: int, y: int)
    requires
        0 <= x,
        0 <= y,
    ensures
        ({
            let (world_x, world_y) = world_of_tile(x, y);
            tile_of_world(world_x, world_y) == (x, y)
        }),
{
}

/// Converting the position of any tile back to the grid gives the tile or, for a
/// negative coordinate, the next tile toward zero.
pub proof fn lemma_round_trip_within_one_tile(x: int, y: int)
    ensures
        ({
            let (world_x, world_y) = world_of_tile(x, y);
            let (back_x, back_y) = tile_of_world(world_x, world_y);
            &&& back_x == if x >= 0 {
                x
            } else {
                x + 1
            }
            &&& back_y == if y >= 0 {
                y
            } else {
                y + 1
            }
        }),
{
}

/// The world position at which a tile is drawn.
pub fn map_to_screen_tile_pos(position: TilePos) -> (world: WorldPos)
    ensures
        (world.x as int, world.y as int) == world_of_tile(position.x as int, position.y as int),
{
    let x: i64 = position.x as i64;
    let y: i64 = position.y as i64;
    WorldPos {
        x: HALF_TILE_WIDTH * x - HALF_TILE_WIDTH * y,
        y: HALF_TILE_HEIGHT * x + HALF_TILE_HEIGHT * y + HALF_TILE_HEIGHT,
    }
}

/// The world position of the top corner of a tile.
pub fn map_to_screen_pos_centered(position: TilePos) -> (world: WorldPos)
    ensures
        (world.x as int, world.y as int) == world_of_tile_centered(
            position.x as int,
            position.y as int,
        ),
{
    let x: i64 = position.x as i64;
    let y: i64 = position.y as i64;
    WorldPos {
        x: HALF_TILE_WIDTH * x - HALF_TILE_WIDTH * y,
        y: HALF_TILE_HEIGHT * x + HALF_TILE_HEIGHT * y,
    }
}

/// The quotient of `n` by `d`, rounded toward zero.
pub fn divide_toward_zero(n: i64, d: i64) -> (q: i64)
    requires
        d > 0,
        n > i64::MIN,
    ensures
        q == div_toward_zero(n as int, d as int),
{
    if n >= 0 {
        n / d
    } else {
        let q: i64 = (-n) / d;
        -q
    }
}

/// The tile under a world position.
pub fn screen_to_map_pos(position: WorldPos) -> (tile: TilePos)
    requires
        world_in_range(position.x as int, position.y as int),
    ensures
        (tile.x as int, tile.y as int) == tile_of_world(position.x as int, position.y as int),
{
    let x: i64 = divide_toward_zero(2 * position.y + position.x, TILE_WIDTH);
    let y: i64 = divide_toward_zero(2 * position.y - position.x, TILE_WIDTH);
    TilePos { x: x as i32, y: y as i32 }
}

} // verus!
