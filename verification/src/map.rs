//! The tile map: a dense square grid of tiles, made once and read-only afterwards.

use crate::projection::{map_to_screen_tile_pos, world_of_tile, TilePos, WorldPos};
use rand::rngs::ThreadRng;
use rand::Rng;
use vstd::prelude::*;

verus! {

/// The number of tiles along each side of the map.
pub const SIZE: i32 = 200;

/// The number of cells in the row of the texture atlas from which tiles take their
/// picture.
pub const ATLAS_COLUMNS: u8 = 28;

/// The cell of the texture atlas that holds a tile's picture: its column and row,
/// and the index of the atlas.
#[derive(Clone, Copy, Debug, PartialEq, Eq)]
pub struct AtlasCoordinate {
    pub coordinate: [u8; 2],
    pub index: u16,
}

/// A tile of the map: its place on the grid, the world position at which it is
/// drawn, and its picture.
#[derive(Clone, Copy, Debug, PartialEq, Eq)]
pub struct Tile {
    pub grid: TilePos,
    pub position: WorldPos,
    pub atlas_coordinate: AtlasCoordinate,
}

/// The map: its tiles row by row, `SIZE` tiles to a row.
#[derive(Debug)]
pub struct TileMap {
    pub tiles: Vec<Tile>,
}

/// Whether `tile` is the tile at `(x, y)` with a picture from column `column` of the
/// first row of the first atlas.
pub open spec fn is_tile(tile: Tile, x: int, y: int, column: int) -> bool {
    &&& tile.grid.x == x
    &&& tile.grid.y == y
    &&& (tile.position.x as int, tile.position.y as int) == world_of_tile(x, y)
    &&& tile.atlas_coordinate.coordinate[0] == column
    &&& tile.atlas_coordinate.coordinate[1] == 0
    &&& tile.atlas_coordinate.index == 0
}

/// Whether `tile` can stand at place `index` of the map's tiles: it is the tile at
/// column `index % SIZE` of row `index / SIZE`, with a picture from one of the
/// `ATLAS_COLUMNS` columns.
pub open spec fn is_tile_number(tile: Tile, index: int) -> bool {
    &&& is_tile(
        tile,
        index % (SIZE as int),
        index / (SIZE as int),
        tile.atlas_coordinate.coordinate[0] as int,
    )
    &&& tile.atlas_coordinate.coordinate[0] < ATLAS_COLUMNS
}

impl TileMap {
    /// Whether the map holds every tile of the grid, each at its place.
    pub open spec fn wf(&self) -> bool {
        &&& self.tiles@.len() == SIZE * SIZE
        &&& forall|index: int|
            0 <= index < self.tiles@.len() ==> is_tile_number(#[trigger] self.tiles@[index], index)
    }
}

/// `rand::rngs::ThreadRng`, the random number generator of a thread. The library
/// carries it from `rand::thread_rng` to `Rng::gen_range` and sees nothing inside.
#[verifier::external_type_specification]
#[verifier::external_body]
pub struct ExThreadRng(ThreadRng);

/// `rand::thread_rng` hands out the random number generator of the calling thread.
/// Nothing is stated of the generator. It is seeded by the operating system, and the
/// call does not return where that fails.
pub assume_specification[ rand::thread_rng ]() -> (rng: ThreadRng)
;

/// `Rng::gen_range`, called on the generator of a thread with the range `0..high`,
/// returns a number of that range, that is, one below `high`. Which one is left
/// open. The range must not be empty. The generator seeds itself anew from the
/// operating system after it has given out enough, and the call does not return where
/// that fails.
#[verifier::external_body]
fn random_below(rng: &mut ThreadRng, high: u8) -> (number: u8)
    requires
        high > 0,
    ensures
        number < high,
{
    rng.gen_range(0..high)
}

/// The tile at `(x, y)` with a picture from column `column` of the atlas.
pub fn make_tile(x: i32, y: i32, column: u8) -> (tile: Tile)
    ensures
        is_tile(tile, x as int, y as int, column as int),
{
    let grid = TilePos { x, y };
    Tile {
        grid,
        position: map_to_screen_tile_pos(grid),
        atlas_coordinate: AtlasCoordinate { coordinate: [column, 0], index: 0 },
    }
}

/// Makes the map: every tile of the grid, row by row, each with a picture picked at
/// random from the columns of the atlas.
pub fn generate_instances() -> (map: TileMap)
    ensures
        map.wf(),
{
    let mut rng = rand::thread_rng();
    let mut instances: Vec<Tile> = Vec::new();
    let mut y: i32 = 0;
    while y < SIZE
        invariant
            0 <= y <= SIZE,
            instances@.len() == y * SIZE,
            forall|index: int|
                0 <= index < instances@.len() ==> is_tile_number(#[trigger] instances@[index], index),
        decreases SIZE - y,
    {
        let mut x: i32 = 0;
        while x < SIZE
            invariant
                0 <= y < SIZE,
                0 <= x <= SIZE,
                instances@.len() == y * SIZE + x,
                forall|index: int|
                    0 <= index < instances@.len() ==> is_tile_number(
                        #[trigger] instances@[index],
                        index,
                    ),
            decreases SIZE - x,
        {
            let column = random_below(&mut rng, ATLAS_COLUMNS);
            let tile = make_tile(x, y, column);
            instances.push(tile);
            x = x + 1;
        }
        y = y + 1;
    }
    TileMap { tiles: instances }
}

} // verus!
