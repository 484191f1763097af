//! Counting the tiles of a staggered isometric diamond that lie on the map.
//!
//! The visible part of the map is a diamond on screen. It is described by a nominal
//! origin on the tile grid, by the length of each diagonal run of tiles (`columns`)
//! and by the number of runs (`rows`). Consecutive runs are staggered: the start of a
//! run lies one tile down the x axis from the start of the run before it, or one tile
//! up the y axis, by turns. The count is the number of instances that the draw call
//! reads from the buffer of visible tiles, so it is computed without touching the
//! graphics device.

use vstd::math::{max, min};
use vstd::prelude::*;

verus! {

/// The grid position from which a diamond's runs are laid out. It may lie far off
/// the map.
#[derive(Clone, Copy, Debug, PartialEq, Eq, Structural)]
pub struct Anchor {
    pub x: i64,
    pub y: i64,
}

/// Whether the tile `(x, y)` lies on a map of `map_x` by `map_y` tiles.
pub open spec fn in_map(x: int, y: int, map_x: int, map_y: int) -> bool {
    0 <= x < map_x && 0 <= y < map_y
}

/// Whether the `k`-th diagonal step from `(start_x, start_y)` lands on the map.
pub open spec fn step_in_map(start_x: int, start_y: int, k: int, map_x: int, map_y: int) -> bool {
    in_map(start_x + k, start_y + k, map_x, map_y)
}

/// Whether one of the first `columns` diagonal steps from the origin lands on the map.
pub open spec fn reaches_map(
    start_x: int,
    start_y: int,
    columns: int,
    map_x: int,
    map_y: int,
) -> bool {
    exists|k: int| 1 <= k <= columns && #[trigger] step_in_map(start_x, start_y, k, map_x, map_y)
}

/// The point from which the runs are laid out.
///
/// An origin whose diagonal reaches the map is kept. An origin left of the diagonal
/// `x + y == map_x` is replaced by a point above the bottom-right anchor: that is
/// `(x + y + 2 * columns, 0)` or, where this lies beyond the map, `(map_x - 1, 0)`,
/// and the point lies up the run through it by half its distance from the left-edge
/// anchor `(x + y, 0)`, an odd distance being rounded up. On screen the point stands
/// over the bottom-right anchor at the height of the left-edge anchor. Any other
/// origin is shifted along its anti-diagonal onto the column `map_x`.
pub open spec fn anchor(start_x: int, start_y: int, columns: int, map_x: int, map_y: int) -> (
    int,
    int,
) {
    let left = start_x + start_y;
    if reaches_map(start_x, start_y, columns, map_x, map_y) {
        (start_x, start_y)
    } else if left < map_x {
        if left + 2 * columns > map_x {
            let half = (map_x - left) / 2;
            (map_x - 1 - half, -half)
        } else {
            (left + columns, -columns)
        }
    } else {
        (map_x, left - map_x)
    }
}

/// Where run number `row` starts, for runs laid out from `(anchor_x, anchor_y)`.
pub open spec fn row_origin(anchor_x: int, anchor_y: int, row: int) -> (int, int) {
    (anchor_x - row % 2 - row / 2, anchor_y + row / 2)
}

/// The first step of a run from `(pos_x, pos_y)` that is not below the map's low edges.
pub open spec fn first_step(pos_x: int, pos_y: int) -> int {
    max(0, max(-pos_x, -pos_y))
}

/// The first step of a run of `columns` tiles from `(pos_x, pos_y)` that is past the
/// run's end or past one of the map's high edges.
pub open spec fn end_step(pos_x: int, pos_y: int, columns: int, map_x: int, map_y: int) -> int {
    min(columns, min(map_x - pos_x, map_y - pos_y))
}

/// The clipped length of the run of `columns` tiles that starts at `(pos_x, pos_y)`.
/// It is negative where the run has left the map altogether.
pub open spec fn row_span(pos_x: int, pos_y: int, columns: int, map_x: int, map_y: int) -> int {
    end_step(pos_x, pos_y, columns, map_x, map_y) - first_step(pos_x, pos_y)
}

/// The sum of the clipped lengths of the runs `from..rows`, up to the first run whose
/// clipped length is negative.
pub open spec fn count_rows(
    anchor_x: int,
    anchor_y: int,
    columns: int,
    map_x: int,
    map_y: int,
    from: int,
    rows: int,
) -> int
    decreases rows - from,
{
    if from >= rows {
        0
    } else {
        let (pos_x, pos_y) = row_origin(anchor_x, anchor_y, from);
        let span = row_span(pos_x, pos_y, columns, map_x, map_y);
        if span < 0 {
            0
        } else {
            span + count_rows(anchor_x, anchor_y, columns, map_x, map_y, from + 1, rows)
        }
    }
}

/// The number of visible tile instances of the diamond.
pub open spec fn visible_tile_count(
    start_x: int,
    start_y: int,
    columns: int,
    rows: int,
    map_x: int,
    map_y: int,
) -> int {
    let (anchor_x, anchor_y) = anchor(start_x, start_y, columns, map_x, map_y);
    count_rows(anchor_x, anchor_y, columns, map_x, map_y, 0, rows)
}

/// Whether run number `row`, laid out from the nominal origin, lies on the map with
/// all its `columns` tiles.
pub open spec fn row_within_map(
    start_x: int,
    start_y: int,
    row: int,
    columns: int,
    map_x: int,
    map_y: int,
) -> bool {
    let (pos_x, pos_y) = row_origin(start_x, start_y, row);
    0 <= pos_x && 0 <= pos_y && pos_x + columns <= map_x && pos_y + columns <= map_y
}

/// Whether the whole diamond, laid out from the nominal origin, lies on the map.
pub open spec fn diamond_within_map(
    start_x: int,
    start_y: int,
    columns: int,
    rows: int,
    map_x: int,
    map_y: int,
) -> bool {
    forall|row: int|
        0 <= row < rows ==> #[trigger] row_within_map(start_x, start_y, row, columns, map_x, map_y)
}

/// The count follows from the six inputs alone: equal inputs give equal counts.
pub proof fn lemma_count_is_determined_by_inputs(
    first: (int, int, int, int, int, int),
    second: (int, int, int, int, int, int),
)
    requires
        first == second,
    ensures
        visible_tile_count(first.0, first.1, first.2, first.3, first.4, first.5)
            == visible_tile_count(second.0, second.1, second.2, second.3, second.4, second.5),
{
}

/// A run's clipped length, where it is not negative, is the number of its tiles on
/// the map: the steps from `first_step` up to `end_step` are exactly the steps
/// `0..columns` that land on the map.
pub proof fn lemma_row_span_counts_tiles(
    pos_x: int,
    pos_y: int,
    columns: int,
    map_x: int,
    map_y: int,
)
    requires
        row_span(pos_x, pos_y, columns, map_x, map_y) >= 0,
    ensures
        forall|k: int|
            (first_step(pos_x, pos_y) <= k < end_step(pos_x, pos_y, columns, map_x, map_y)) <==> (0
                <= k < columns && #[trigger] step_in_map(pos_x, pos_y, k, map_x, map_y)),
{
}

/// The runs `from..rows` hold no fewer than zero tiles and no more than `columns` each.
pub proof fn lemma_count_rows_bounds(
    anchor_x: int,
    anchor_y: int,
    columns: int,
    map_x: int,
    map_y: int,
    from: int,
    rows: int,
)
    ensures
        0 <= count_rows(anchor_x, anchor_y, columns, map_x, map_y, from, rows),
        columns <= 0 || rows <= from ==> count_rows(
            anchor_x,
            anchor_y,
            columns,
            map_x,
            map_y,
            from,
            rows,
        ) == 0,
        columns >= 0 && from <= rows ==> count_rows(
            anchor_x,
            anchor_y,
            columns,
            map_x,
            map_y,
            from,
            rows,
        ) <= columns * (rows - from),
    decreases rows - from,
{
    if from < rows {
        lemma_count_rows_bounds(anchor_x, anchor_y, columns, map_x, map_y, from + 1, rows);
        if columns >= 0 {
            assert(columns * (rows - from) == columns + columns * (rows - (from + 1)))
                by (nonlinear_arith);
        }
    } else if columns >= 0 && from == rows {
        assert(columns * (rows - from) == 0) by (nonlinear_arith)
            requires
                rows - from == 0,
        ;
    }
}

/// The count is never negative, and a diamond of `columns` by `rows` tiles never
/// shows more than `columns * rows` of them.
pub proof fn lemma_visible_tile_count_bounds(
    start_x: int,
    start_y: int,
    columns: int,
    rows: int,
    map_x: int,
    map_y: int,
)
    ensures
        0 <= visible_tile_count(start_x, start_y, columns, rows, map_x, map_y),
        columns <= 0 || rows <= 0 ==> visible_tile_count(
            start_x,
            start_y,
            columns,
            rows,
            map_x,
            map_y,
        ) == 0,
        columns >= 0 && rows >= 0 ==> visible_tile_count(
            start_x,
            start_y,
            columns,
            rows,
            map_x,
            map_y,
        ) <= columns * rows,
{
    let (anchor_x, anchor_y) = anchor(start_x, start_y, columns, map_x, map_y);
    lemma_count_rows_bounds(anchor_x, anchor_y, columns, map_x, map_y, 0, rows);
}

/// The number of tiles of the map on the diagonal `x - y == diagonal`.
pub open spec fn diagonal_length(map_x: int, map_y: int, diagonal: int) -> int {
    max(0, min(map_x, map_y + diagonal) - max(0, diagonal))
}

/// The number of tiles of the map on the `count` diagonals from `x - y == highest`
/// downwards.
pub open spec fn diagonals_length(map_x: int, map_y: int, highest: int, count: int) -> int
    decreases count,
{
    if count <= 0 {
        0
    } else {
        diagonal_length(map_x, map_y, highest) + diagonals_length(
            map_x,
            map_y,
            highest - 1,
            count - 1,
        )
    }
}

/// The number of the `count` diagonals from `x - y == highest` downwards that cross
/// the column `x == column` of a map that is `map_y` tiles high.
spec fn diagonals_crossing(column: int, map_y: int, highest: int, count: int) -> int {
    max(0, min(column, highest) - max(column - map_y, highest - count))
}

/// A column more makes each diagonal that crosses it on the map longer by one tile.
proof fn lemma_diagonals_of_wider_map(map_x: int, map_y: int, highest: int, count: int)
    requires
        0 <= map_x,
        0 <= map_y,
        0 <= count,
    ensures
        diagonals_length(map_x + 1, map_y, highest, count) == diagonals_length(
            map_x,
            map_y,
            highest,
            count,
        ) + diagonals_crossing(map_x, map_y, highest, count),
    decreases count,
{
    if count > 0 {
        lemma_diagonals_of_wider_map(map_x, map_y, highest - 1, count - 1);
    }
}

/// Diagonals that follow one another hold no tile twice: together they hold no more
/// tiles than the map has.
proof fn lemma_diagonals_within_map(map_x: int, map_y: int, highest: int, count: int)
    requires
        0 <= map_x,
        0 <= map_y,
        0 <= count,
    ensures
        0 <= diagonals_length(map_x, map_y, highest, count) <= map_x * map_y,
    decreases map_x, count,
{
    if map_x == 0 {
        if count > 0 {
            lemma_diagonals_within_map(map_x, map_y, highest - 1, count - 1);
        }
        assert(map_x * map_y == 0) by (nonlinear_arith)
            requires
                map_x == 0,
        ;
    } else {
        lemma_diagonals_within_map(map_x - 1, map_y, highest, count);
        lemma_diagonals_of_wider_map(map_x - 1, map_y, highest, count);
        assert((map_x - 1) * map_y + map_y == map_x * map_y) by (nonlinear_arith);
    }
}

/// The runs `from..rows` lie on diagonals that follow one another, and none shows
/// more tiles than its diagonal has on the map.
proof fn lemma_count_rows_within_diagonals(
    anchor_x: int,
    anchor_y: int,
    columns: int,
    map_x: int,
    map_y: int,
    from: int,
    rows: int,
)
    requires
        0 <= map_x,
        0 <= map_y,
        0 <= from <= rows,
    ensures
        count_rows(anchor_x, anchor_y, columns, map_x, map_y, from, rows) <= diagonals_length(
            map_x,
            map_y,
            anchor_x - anchor_y - from,
            rows - from,
        ),
    decreases rows - from,
{
    lemma_diagonals_within_map(map_x, map_y, anchor_x - anchor_y - from, rows - from);
    if from < rows {
        lemma_count_rows_within_diagonals(anchor_x, anchor_y, columns, map_x, map_y, from + 1, rows);
        lemma_diagonals_within_map(
            map_x,
            map_y,
            anchor_x - anchor_y - from - 1,
            rows - from - 1,
        );
    }
}

/// The count never exceeds the number of tiles of the map: no tile is counted twice.
pub proof fn lemma_visible_tile_count_within_map(
    start_x: int,
    start_y: int,
    columns: int,
    rows: int,
    map_x: int,
    map_y: int,
)
    requires
        0 <= map_x,
        0 <= map_y,
    ensures
        visible_tile_count(start_x, start_y, columns, rows, map_x, map_y) <= map_x * map_y,
{
    let (anchor_x, anchor_y) = anchor(start_x, start_y, columns, map_x, map_y);
    if rows >= 0 {
        lemma_count_rows_within_diagonals(anchor_x, anchor_y, columns, map_x, map_y, 0, rows);
        lemma_diagonals_within_map(map_x, map_y, anchor_x - anchor_y, rows);
    } else {
        assert(0 <= map_x * map_y) by (nonlinear_arith)
            requires
                0 <= map_x,
                0 <= map_y,
        ;
    }
}

/// Runs that lie on the map with all their tiles are counted in full.
proof fn lemma_count_rows_within_map(
    start_x: int,
    start_y: int,
    columns: int,
    map_x: int,
    map_y: int,
    from: int,
    rows: int,
)
    requires
        0 <= columns,
        0 <= from <= rows,
        diamond_within_map(start_x, start_y, columns, rows, map_x, map_y),
    ensures
        count_rows(start_x, start_y, columns, map_x, map_y, from, rows) == columns * (rows - from),
    decreases rows - from,
{
    if from < rows {
        lemma_count_rows_within_map(start_x, start_y, columns, map_x, map_y, from + 1, rows);
        assert(row_within_map(start_x, start_y, from, columns, map_x, map_y));
        assert(columns * (rows - from) == columns + columns * (rows - (from + 1)))
            by (nonlinear_arith);
    } else {
        assert(columns * (rows - from) == 0) by (nonlinear_arith)
            requires
                rows - from == 0,
        ;
    }
}

/// A diamond that lies on the map with all its tiles shows `columns * rows` of them.
///
/// A diamond of single-tile runs is the one kind for which this can fail: its
/// diagonal reaches the map in one step or not at all, and where it does not, the
/// re-derived anchor shows the runs in full only if the origin lies on the diagonal
/// `x + y == map_x - 1`.
pub proof fn lemma_interior_diamond_is_counted_in_full(
    start_x: int,
    start_y: int,
    columns: int,
    rows: int,
    map_x: int,
    map_y: int,
)
    requires
        interior_diamond(start_x, start_y, columns, rows, map_x, map_y),
    ensures
        visible_tile_count(start_x, start_y, columns, rows, map_x, map_y) == columns * rows,
{
    let (anchor_x, anchor_y) = anchor(start_x, start_y, columns, map_x, map_y);
    if columns == 0 || rows == 0 {
        lemma_count_rows_bounds(anchor_x, anchor_y, columns, map_x, map_y, 0, rows);
        assert(columns * rows == 0) by (nonlinear_arith)
            requires
                columns == 0 || rows == 0,
        ;
    } else {
        assert(row_within_map(start_x, start_y, 0, columns, map_x, map_y));
        if step_in_map(start_x, start_y, 1, map_x, map_y) {
            assert(reaches_map(start_x, start_y, columns, map_x, map_y));
            lemma_count_rows_within_map(start_x, start_y, columns, map_x, map_y, 0, rows);
        } else {
            assert(columns == 1);
            assert(!reaches_map(start_x, start_y, columns, map_x, map_y));
            assert(anchor_x == map_x - 1 && anchor_y == 0);
            if start_y == 0 {
                lemma_count_rows_within_map(start_x, start_y, columns, map_x, map_y, 0, rows);
            } else {
                assert(start_y == map_y - 1);
                if rows >= 3 {
                    assert(row_within_map(start_x, start_y, 2, columns, map_x, map_y));
                    assert(false);
                }
                if rows == 2 {
                    assert(row_within_map(start_x, start_y, 1, columns, map_x, map_y));
                }
                reveal_with_fuel(count_rows, 3);
            }
        }
    }
}

/// Whether the diamond lies on the map with all its tiles and is counted from where
/// it lies: its extents are not negative, every run lies on the map, and a diamond of
/// single-tile runs either reaches the map with its one diagonal step or lies on the
/// diagonal `x + y == map_x - 1`.
pub open spec fn interior_diamond(
    start_x: int,
    start_y: int,
    columns: int,
    rows: int,
    map_x: int,
    map_y: int,
) -> bool {
    &&& 0 <= columns
    &&& 0 <= rows
    &&& diamond_within_map(start_x, start_y, columns, rows, map_x, map_y)
    &&& columns == 1 && rows >= 1 ==> in_map(start_x + 1, start_y + 1, map_x, map_y) || start_x
        + start_y == map_x - 1
}

/// A diamond lies on the map with all its tiles if its first run starts on the map,
/// its last runs start no further left than the map's edge, and the ends of its runs
/// lie within the map's far edges. The runs start up to `rows / 2` tiles down the x
/// axis and up to `(rows - 1) / 2` tiles up the y axis from the origin.
pub proof fn lemma_diamond_within_map_by_corners(
    start_x: int,
    start_y: int,
    columns: int,
    rows: int,
    map_x: int,
    map_y: int,
)
    requires
        0 <= columns,
        0 < rows,
        0 <= start_x - rows / 2,
        0 <= start_y,
        start_x + columns <= map_x,
        start_y + (rows - 1) / 2 + columns <= map_y,
    ensures
        diamond_within_map(start_x, start_y, columns, rows, map_x, map_y),
        columns != 1 ==> interior_diamond(start_x, start_y, columns, rows, map_x, map_y),
{
    assert forall|row: int| 0 <= row < rows implies #[trigger] row_within_map(
        start_x,
        start_y,
        row,
        columns,
        map_x,
        map_y,
    ) by {
        assert(row % 2 + row / 2 <= rows / 2);
        assert(row / 2 <= (rows - 1) / 2);
    }
}

/// A diamond of two or more runs that is laid out from the corner `(0, 0)` of a map
/// of two or more tiles either way is clipped: its second run starts off the map, so
/// it shows fewer tiles than it has.
pub proof fn lemma_corner_diamond_is_clipped(columns: int, rows: int, map_x: int, map_y: int)
    requires
        1 <= columns,
        2 <= rows,
        2 <= map_x,
        2 <= map_y,
    ensures
        visible_tile_count(0, 0, columns, rows, map_x, map_y) < columns * rows,
{
    assert(step_in_map(0, 0, 1, map_x, map_y));
    assert(reaches_map(0, 0, columns, map_x, map_y));
    lemma_count_rows_bounds(0, 0, columns, map_x, map_y, 2, rows);
    reveal_with_fuel(count_rows, 3);
    assert(columns * rows == 2 * columns + columns * (rows - 2)) by (nonlinear_arith);
    assert(0 < columns * rows) by (nonlinear_arith)
        requires
            1 <= columns,
            2 <= rows,
    ;
}

/// Walks up to `columns` diagonal steps from the origin and says whether one of them
/// lands on the map.
pub fn origin_reaches_map(
    start_pos_x: i32,
    start_pos_y: i32,
    columns: i32,
    map_size_x: i32,
    map_size_y: i32,
) -> (inside: bool)
    ensures
        inside == reaches_map(
            start_pos_x as int,
            start_pos_y as int,
            columns as int,
            map_size_x as int,
            map_size_y as int,
        ),
{
    let mut step: i32 = 0;
    while step < columns
        invariant
            0 <= step,
            step <= columns || columns < 0,
            forall|k: int|
                1 <= k <= step ==> !#[trigger] step_in_map(
                    start_pos_x as int,
                    start_pos_y as int,
                    k,
                    map_size_x as int,
                    map_size_y as int,
                ),
        decreases columns - step,
    {
        step = step + 1;
        let x: i64 = start_pos_x as i64 + step as i64;
        let y: i64 = start_pos_y as i64 + step as i64;
        if x >= 0 && y >= 0 && y < map_size_y as i64 && x < map_size_x as i64 {
            assert(step_in_map(
                start_pos_x as int,
                start_pos_y as int,
                step as int,
                map_size_x as int,
                map_size_y as int,
            ));
            return true;
        }
    }
    false
}

/// The point from which the runs of the diamond are laid out.
pub fn diamond_anchor(
    start_pos_x: i32,
    start_pos_y: i32,
    columns: i32,
    map_size_x: i32,
    map_size_y: i32,
) -> (start: Anchor)
    ensures
        (start.x as int, start.y as int) == anchor(
            start_pos_x as int,
            start_pos_y as int,
            columns as int,
            map_size_x as int,
            map_size_y as int,
        ),
{
    if origin_reaches_map(start_pos_x, start_pos_y, columns, map_size_x, map_size_y) {
        return Anchor { x: start_pos_x as i64, y: start_pos_y as i64 };
    }
    let left: i64 = start_pos_x as i64 + start_pos_y as i64;
    if left < map_size_x as i64 {
        let right_bottom: i64 = left + 2 * (columns as i64);
        if right_bottom > map_size_x as i64 {
            let right: i64 = map_size_x as i64 - 1;
            let mut difference: i64 = right - left;
            difference = difference + difference % 2;
            difference = difference / 2;
            Anchor { x: right - difference, y: -difference }
        } else {
            Anchor { x: right_bottom - columns as i64, y: -(columns as i64) }
        }
    } else {
        let to_the_left: i64 = start_pos_x as i64 - map_size_x as i64;
        Anchor { x: start_pos_x as i64 - to_the_left, y: start_pos_y as i64 + to_the_left }
    }
}

/// Clips the run of `columns` tiles that starts at `pos` against the map's low edges,
/// then against its high edges.
fn clipped_run(pos: Anchor, columns: i32, map_size_x: i32, map_size_y: i32) -> (vertical_tiles:
    i64)
    requires
        -0x10_0000_0000 <= pos.x <= 0x10_0000_0000,
        -0x10_0000_0000 <= pos.y <= 0x10_0000_0000,
    ensures
        vertical_tiles == row_span(
            pos.x as int,
            pos.y as int,
            columns as int,
            map_size_x as int,
            map_size_y as int,
        ),
{
    let mut pos = pos;
    let mut vertical_tiles: i64 = columns as i64;
    if pos.x < 0 || pos.y < 0 {
        if pos.x < pos.y {
            vertical_tiles = vertical_tiles + pos.x;
            pos.y = pos.y - pos.x;
            pos.x = 0;
        } else {
            vertical_tiles = vertical_tiles + pos.y;
            pos.x = pos.x - pos.y;
            pos.y = 0;
        }
    }
    pos.x = pos.x + vertical_tiles;
    pos.y = pos.y + vertical_tiles;
    if pos.x >= map_size_x as i64 {
        let tiles_overflow: i64 = pos.x - map_size_x as i64;
        vertical_tiles = vertical_tiles - tiles_overflow;
        pos.y = pos.y - tiles_overflow;
    }
    if pos.y >= map_size_y as i64 {
        let tiles_overflow: i64 = pos.y - map_size_y as i64;
        vertical_tiles = vertical_tiles - tiles_overflow;
    }
    vertical_tiles
}

/// All that holds of the count of every diamond: it is never negative, an empty
/// diamond shows nothing, no diamond shows more tiles than it has or than the map has,
/// a diamond that lies on the map shows all its tiles, whether that is told run by run
/// or by the diamond's corners, and one that is laid out from the map's corner
/// `(0, 0)` in two or more runs shows fewer.
pub open spec fn count_laws(
    start_x: int,
    start_y: int,
    columns: int,
    rows: int,
    map_x: int,
    map_y: int,
) -> bool {
    let count = visible_tile_count(start_x, start_y, columns, rows, map_x, map_y);
    &&& 0 <= count
    &&& columns <= 0 || rows <= 0 ==> count == 0
    &&& columns >= 0 && rows >= 0 ==> count <= columns * rows
    &&& map_x >= 0 && map_y >= 0 ==> count <= map_x * map_y
    &&& interior_diamond(start_x, start_y, columns, rows, map_x, map_y) ==> count == columns
        * rows
    &&& columns >= 2 && rows >= 1 && 0 <= start_x - rows / 2 && 0 <= start_y && start_x + columns
        <= map_x && start_y + (rows - 1) / 2 + columns <= map_y ==> count == columns * rows
    &&& start_x == 0 && start_y == 0 && columns >= 1 && rows >= 2 && map_x >= 2 && map_y >= 2
        ==> count < columns * rows
}

/// The laws of the count hold for all inputs.
pub proof fn lemma_count_laws(
    start_x: int,
    start_y: int,
    columns: int,
    rows: int,
    map_x: int,
    map_y: int,
)
    ensures
        count_laws(start_x, start_y, columns, rows, map_x, map_y),
{
    lemma_visible_tile_count_bounds(start_x, start_y, columns, rows, map_x, map_y);
    if map_x >= 0 && map_y >= 0 {
        lemma_visible_tile_count_within_map(start_x, start_y, columns, rows, map_x, map_y);
    }
    if columns >= 2 && rows >= 1 && 0 <= start_x - rows / 2 && 0 <= start_y && start_x + columns
        <= map_x && start_y + (rows - 1) / 2 + columns <= map_y {
        lemma_diamond_within_map_by_corners(start_x, start_y, columns, rows, map_x, map_y);
    }
    if interior_diamond(start_x, start_y, columns, rows, map_x, map_y) {
        lemma_interior_diamond_is_counted_in_full(start_x, start_y, columns, rows, map_x, map_y);
    }
    if start_x == 0 && start_y == 0 && columns >= 1 && rows >= 2 && map_x >= 2 && map_y >= 2 {
        lemma_corner_diamond_is_clipped(columns, rows, map_x, map_y);
    }
}

/// Counts the visible tile instances of a diamond of `rows` staggered runs of
/// `columns` tiles, laid out from `(start_pos_x, start_pos_y)` on a map of
/// `map_size_x` by `map_size_y` tiles. The count follows from these six numbers
/// alone. It can be as large as `columns * rows`, so it is given in 64 bits.
///
/// A run whose clipped length is negative lies off the map, and so do all runs after
/// it: counting stops there.
pub fn calc_visible_tiles(
    start_pos_x: i32,
    start_pos_y: i32,
    columns: i32,
    rows: i32,
    map_size_x: i32,
    map_size_y: i32,
) -> (count: i64)
    ensures
        count == visible_tile_count(
            start_pos_x as int,
            start_pos_y as int,
            columns as int,
            rows as int,
            map_size_x as int,
            map_size_y as int,
        ),
        count_laws(
            start_pos_x as int,
            start_pos_y as int,
            columns as int,
            rows as int,
            map_size_x as int,
            map_size_y as int,
        ),
{
    proof {
        lemma_count_laws(
            start_pos_x as int,
            start_pos_y as int,
            columns as int,
            rows as int,
            map_size_x as int,
            map_size_y as int,
        );
    }
    let start = diamond_anchor(start_pos_x, start_pos_y, columns, map_size_x, map_size_y);
    let ghost total = count_rows(
        start.x as int,
        start.y as int,
        columns as int,
        map_size_x as int,
        map_size_y as int,
        0,
        rows as int,
    );
    proof {
        if columns >= 0 && rows >= 0 {
            assert(columns * rows <= 0x7fff_ffff * 0x7fff_ffff) by (nonlinear_arith)
                requires
                    0 <= columns <= 0x7fff_ffff,
                    0 <= rows <= 0x7fff_ffff,
            ;
        }
    }
    let mut visible_index: i64 = 0;
    let mut i: i32 = 0;
    while i < rows
        invariant_except_break
            0 <= i,
            i <= rows || rows < 0,
            visible_index + count_rows(
                start.x as int,
                start.y as int,
                columns as int,
                map_size_x as int,
                map_size_y as int,
                i as int,
                rows as int,
            ) == total,
        invariant
            0 <= visible_index <= total,
            total <= 0x7fff_ffff * 0x7fff_ffff,
            -0x2_0000_0000 <= start.x <= 0x2_0000_0000,
            -0x2_0000_0000 <= start.y <= 0x2_0000_0000,
        ensures
            visible_index == total,
        decreases rows - i,
    {
        let current_row: i32 = i / 2;
        let pos = Anchor {
            x: start.x - (i % 2) as i64 - current_row as i64,
            y: start.y + current_row as i64,
        };
        let vertical_tiles = clipped_run(pos, columns, map_size_x, map_size_y);
        if vertical_tiles < 0 {
            break;
        }
        proof {
            lemma_count_rows_bounds(
                start.x as int,
                start.y as int,
                columns as int,
                map_size_x as int,
                map_size_y as int,
                i + 1,
                rows as int,
            );
        }
        visible_index = visible_index + vertical_tiles;
        i = i + 1;
    }
    visible_index
}

} // verus!
