use isogrid::map::{generate_instances, make_tile, AtlasCoordinate, Tile, ATLAS_COLUMNS, SIZE};
use isogrid::projection::{map_to_screen_tile_pos, TilePos, WorldPos};

#[test]
fn map_holds_every_tile_of_the_grid() {
    let map = generate_instances();
    assert_eq!(map.tiles.len(), (SIZE * SIZE) as usize);
    assert_eq!(map.tiles.len(), 40_000);
}

#[test]
fn tiles_stand_row_by_row() {
    let map = generate_instances();
    for (index, tile) in map.tiles.iter().enumerate() {
        let x = index as i32 % SIZE;
        let y = index as i32 / SIZE;
        assert_eq!(tile.grid, TilePos { x, y });
        assert_eq!(tile.position, map_to_screen_tile_pos(tile.grid));
    }
    assert_eq!(map.tiles[0].position, WorldPos { x: 0, y: 8 });
    assert_eq!(map.tiles[1].position, WorldPos { x: 16, y: 16 });
    assert_eq!(map.tiles[200].position, WorldPos { x: -16, y: 16 });
    assert_eq!(map.tiles[39_999].position, WorldPos { x: 0, y: 3192 });
}

#[test]
fn pictures_come_from_the_columns_of_the_atlas() {
    let map = generate_instances();
    for tile in &map.tiles {
        assert!(tile.atlas_coordinate.coordinate[0] < ATLAS_COLUMNS);
        assert_eq!(tile.atlas_coordinate.coordinate[1], 0);
        assert_eq!(tile.atlas_coordinate.index, 0);
    }
}

#[test]
fn pictures_are_not_all_the_same() {
    let map = generate_instances();
    let first = map.tiles[0].atlas_coordinate.coordinate[0];
    assert!(map.tiles.iter().any(|tile| tile.atlas_coordinate.coordinate[0] != first));
}

#[test]
fn make_tile_places_the_tile() {
    assert_eq!(
        make_tile(3, 5, 27),
        Tile {
            grid: TilePos { x: 3, y: 5 },
            position: WorldPos { x: -32, y: 72 },
            atlas_coordinate: AtlasCoordinate { coordinate: [27, 0], index: 0 },
        }
    );
}
