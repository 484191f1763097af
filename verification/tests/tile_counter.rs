use isogrid::tile_counter::{calc_visible_tiles, diamond_anchor, origin_reaches_map, Anchor};

#[test]
fn interior_diamond_shows_every_tile() {
    assert_eq!(calc_visible_tiles(100, 100, 16, 16, 200, 200), 256);
    assert_eq!(calc_visible_tiles(150, 100, 16, 32, 200, 200), 512);
    assert_eq!(calc_visible_tiles(89, 64, 48, 64, 200, 200), 3072);
}

#[test]
fn corner_diamond_is_clipped_run_by_run() {
    // The runs lose a tile with every second step to the left:
    // 32 + 2 * (31 + 30 + 29 + 28 + 27 + 26 + 25) + 24.
    let count = calc_visible_tiles(0, 0, 32, 16, 200, 200);
    assert!(count < 32 * 16);
    assert_eq!(count, 448);
    assert_eq!(calc_visible_tiles(0, 0, 32, 32, 200, 200), 768);
}

#[test]
fn counting_stops_at_the_first_run_off_the_map() {
    // Of 32 runs only the first 22 reach the map: 2 * (10 + 9 + ... + 1 + 0).
    assert_eq!(calc_visible_tiles(190, 190, 32, 32, 200, 200), 110);
    assert_eq!(calc_visible_tiles(180, -10, 48, 64, 200, 200), 2178);
}

#[test]
fn diamond_off_the_map_shows_nothing() {
    assert_eq!(calc_visible_tiles(-100, -100, 16, 16, 200, 200), 0);
    assert_eq!(calc_visible_tiles(-30, -30, 16, 16, 200, 200), 0);
    assert_eq!(calc_visible_tiles(-500, 100, 16, 16, 200, 200), 0);
}

#[test]
fn origin_outside_is_anchored_anew() {
    assert_eq!(calc_visible_tiles(-40, 20, 16, 16, 200, 200), 50);
    assert_eq!(calc_visible_tiles(250, 10, 16, 16, 200, 200), 64);
    assert_eq!(calc_visible_tiles(5, 300, 16, 16, 200, 200), 64);
}

#[test]
fn empty_or_negative_extents_show_nothing() {
    assert_eq!(calc_visible_tiles(100, 100, 0, 16, 200, 200), 0);
    assert_eq!(calc_visible_tiles(100, 100, 16, 0, 200, 200), 0);
    assert_eq!(calc_visible_tiles(100, 100, -16, 16, 200, 200), 0);
    assert_eq!(calc_visible_tiles(100, 100, 16, -16, 200, 200), 0);
    assert_eq!(calc_visible_tiles(100, 100, 16, 16, 0, 0), 0);
    assert_eq!(calc_visible_tiles(100, 100, 16, 16, -5, -5), 0);
}

#[test]
fn extreme_origins_do_not_overflow() {
    assert_eq!(calc_visible_tiles(i32::MAX, i32::MAX, 16, 16, 200, 200), 0);
    assert_eq!(calc_visible_tiles(i32::MIN, i32::MIN, 16, 16, 200, 200), 0);
    assert_eq!(calc_visible_tiles(i32::MIN, i32::MAX, 16, 16, i32::MAX, i32::MAX), 56);
    let count = calc_visible_tiles(0, 0, 16, 16, i32::MAX, i32::MAX);
    assert_eq!(count, 16 + 2 * (15 + 14 + 13 + 12 + 11 + 10 + 9) + 8);
}

#[test]
fn count_is_the_same_for_the_same_inputs() {
    for start in [-40, 0, 89, 190] {
        let first = calc_visible_tiles(start, 64, 48, 64, 200, 200);
        let second = calc_visible_tiles(start, 64, 48, 64, 200, 200);
        assert_eq!(first, second);
    }
}

#[test]
fn count_stays_within_the_diamond() {
    for start_x in (-48..=240).step_by(12) {
        for start_y in (-48..=240).step_by(12) {
            for (columns, rows) in [(0, 16), (16, 16), (32, 16), (16, 48), (48, 64)] {
                let count = calc_visible_tiles(start_x, start_y, columns, rows, 200, 200);
                assert!(0 <= count, "negative count at ({start_x}, {start_y})");
                assert!(
                    count <= (columns * rows) as i64,
                    "count above capacity at ({start_x}, {start_y})"
                );
            }
        }
    }
}

#[test]
fn single_tile_runs_can_miss_an_interior_diamond() {
    // The one tile of the one run lies on the map, but no step from it does.
    assert_eq!(calc_visible_tiles(0, 1, 1, 1, 1, 2), 0);
    // On the diagonal `x + y == map_x - 1` the new anchor shows the tile all the same.
    assert_eq!(calc_visible_tiles(199, 0, 1, 1, 200, 200), 1);
    assert_eq!(calc_visible_tiles(100, 100, 1, 4, 200, 200), 4);
}

#[test]
fn origin_reaches_map_within_its_columns() {
    assert!(origin_reaches_map(100, 100, 16, 200, 200));
    assert!(origin_reaches_map(-1, -1, 1, 200, 200));
    assert!(origin_reaches_map(-16, -16, 16, 200, 200));
    assert!(!origin_reaches_map(-17, -17, 16, 200, 200));
    assert!(origin_reaches_map(198, 198, 16, 200, 200));
    assert!(!origin_reaches_map(199, 0, 16, 200, 200));
    assert!(!origin_reaches_map(100, 100, 0, 200, 200));
    assert!(!origin_reaches_map(100, 100, -3, 200, 200));
    assert!(!origin_reaches_map(-40, 20, 16, 200, 200));
}

#[test]
fn anchor_of_an_origin_that_reaches_the_map_is_the_origin() {
    assert_eq!(diamond_anchor(100, 100, 16, 200, 200), Anchor { x: 100, y: 100 });
    assert_eq!(diamond_anchor(0, 0, 32, 200, 200), Anchor { x: 0, y: 0 });
    assert_eq!(diamond_anchor(180, -10, 48, 200, 200), Anchor { x: 180, y: -10 });
}

#[test]
fn anchor_left_of_the_diagonal_is_the_midpoint() {
    // Left anchor (-20, 0), bottom right anchor (12, 0): half of 32 is 16.
    assert_eq!(diamond_anchor(-40, 20, 16, 200, 200), Anchor { x: -4, y: -16 });
    assert_eq!(diamond_anchor(-100, -100, 16, 200, 200), Anchor { x: -184, y: -16 });
    assert_eq!(diamond_anchor(-500, 100, 16, 200, 200), Anchor { x: -384, y: -16 });
    // The bottom right anchor lies beyond the map and is clipped to (199, 0):
    // the distance from (198, 0) is 1, which is rounded up to 2 and halved.
    assert_eq!(diamond_anchor(199, -1, 16, 200, 200), Anchor { x: 198, y: -1 });
    // The distance from (190, 0) to (199, 0) is 9: rounded up to 10, half is 5.
    assert_eq!(diamond_anchor(200, -10, 16, 200, 200), Anchor { x: 194, y: -5 });
    assert_eq!(diamond_anchor(0, 1, 1, 1, 2), Anchor { x: 1, y: 0 });
}

#[test]
fn anchor_right_of_the_diagonal_is_moved_onto_the_last_column() {
    assert_eq!(diamond_anchor(250, 10, 16, 200, 200), Anchor { x: 200, y: 60 });
    assert_eq!(diamond_anchor(5, 300, 16, 200, 200), Anchor { x: 200, y: 105 });
    assert_eq!(diamond_anchor(200, 0, 16, 200, 200), Anchor { x: 200, y: 0 });
}

#[test]
fn diamond_over_the_whole_map_shows_every_tile_once() {
    assert_eq!(calc_visible_tiles(46, -154, 320, 416, 200, 200), 40_000);
    assert_eq!(calc_visible_tiles(71, -29, 160, 224, 200, 200), 30_522);
}

#[test]
fn count_stays_within_the_map() {
    for (map_x, map_y) in [(0, 0), (1, 1), (3, 7), (7, 3), (12, 12)] {
        for start_x in -15..25 {
            for start_y in -15..25 {
                let count = calc_visible_tiles(start_x, start_y, 48, 64, map_x, map_y);
                assert!(count <= (map_x * map_y) as i64, "count above map at ({start_x}, {start_y})");
            }
        }
    }
}

#[test]
fn diamond_of_any_size_is_counted() {
    // From the corner run `i` shows `200 - i` tiles, and run 201 lies off the map.
    assert_eq!(calc_visible_tiles(0, 0, i32::MAX, i32::MAX, 200, 200), 20_100);
    assert_eq!(calc_visible_tiles(0, 0, i32::MAX, 201, 200, 200), 20_100);
    assert_eq!(calc_visible_tiles(100, 100, 70_000, 70_000, 200, 200), 10_100);
    assert_eq!(calc_visible_tiles(i32::MIN, i32::MIN, 16, i32::MAX, 200, 200), 0);
}

#[test]
fn diamond_from_the_corner_is_always_clipped() {
    assert_eq!(calc_visible_tiles(0, 0, 1, 2, 2, 2), 1);
    assert_eq!(calc_visible_tiles(0, 0, 16, 2, 200, 200), 31);
    for columns in 1..20 {
        for rows in 2..20 {
            for map in 2..12 {
                assert!(calc_visible_tiles(0, 0, columns, rows, map, map) < (columns * rows) as i64);
            }
        }
    }
}

#[test]
fn diamond_told_by_its_corners_is_counted_in_full() {
    // Sixteen runs reach eight tiles down the x axis and seven up the y axis.
    assert_eq!(calc_visible_tiles(8, 0, 16, 16, 24, 23), 256);
    assert_eq!(calc_visible_tiles(8, 0, 16, 17, 200, 200), 272);
    assert!(calc_visible_tiles(7, 0, 16, 16, 200, 200) < 256);
    assert!(calc_visible_tiles(8, 0, 16, 16, 23, 23) < 256);
    assert!(calc_visible_tiles(8, 0, 16, 16, 24, 22) < 256);
}
