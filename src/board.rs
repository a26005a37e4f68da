use vstd::prelude::*;

verus! {

/// Positions are fixed-point: one block is this many units wide and high.
pub const UNITS_PER_BLOCK: i64 = 1024;

/// Half a block, in position units.
pub const HALF_BLOCK: i64 = 512;

/// Largest lane or row count a board may have.
pub const MAX_BOARD_SIDE: usize = 1048576;

/// A lane or row count that a board may have.
pub open spec fn side_ok(n: int) -> bool {
    0 <= n <= MAX_BOARD_SIDE
}

/// The floor's height: half the rows below the origin.
pub open spec fn spec_floor_y(n_rows: int) -> int {
    -(n_rows * HALF_BLOCK)
}

/// The left wall's abscissa: half the lanes left of the origin.
pub open spec fn spec_left_wall_x(n_lanes: int) -> int {
    -(n_lanes * HALF_BLOCK)
}

/// The centre of the cell at `(lane, row)`.
pub open spec fn spec_block_center(n_lanes: int, n_rows: int, lane: int, row: int) -> (int, int) {
    (
        spec_left_wall_x(n_lanes) + lane * UNITS_PER_BLOCK + HALF_BLOCK,
        spec_floor_y(n_rows) + row * UNITS_PER_BLOCK + HALF_BLOCK,
    )
}

/// The cell where a piece offset `(x, y)` appears: near the top, centred.
pub open spec fn spec_spawn_cell(n_lanes: int, n_rows: int, x: int, y: int) -> (int, int) {
    (n_lanes / 2 - 1 + x, n_rows - 1 + y)
}

/// The row that height `y` falls in, counted from the floor (negative below it).
pub open spec fn spec_row_of(n_rows: int, y: int) -> int {
    (y - spec_floor_y(n_rows)) / (UNITS_PER_BLOCK as int)
}

/// The height of the floor.
pub fn floor_y(n_rows: usize) -> (r: i64)
    requires
        side_ok(n_rows as int),
    ensures
        r == spec_floor_y(n_rows as int),
{
    -((n_rows as i64) * HALF_BLOCK)
}

/// The abscissa of the left wall.
pub fn left_wall_x(n_lanes: usize) -> (r: i64)
    requires
        side_ok(n_lanes as int),
    ensures
        r == spec_left_wall_x(n_lanes as int),
{
    -((n_lanes as i64) * HALF_BLOCK)
}

/// The centre of the cell at `(lane, row)`.
pub fn block_center(n_lanes: usize, n_rows: usize, lane: i64, row: i64) -> (r: (i64, i64))
    requires
        side_ok(n_lanes as int),
        side_ok(n_rows as int),
        -(MAX_BOARD_SIDE as int) <= lane <= 2 * MAX_BOARD_SIDE,
        -(MAX_BOARD_SIDE as int) <= row <= 2 * MAX_BOARD_SIDE,
    ensures
        r.0 == spec_block_center(n_lanes as int, n_rows as int, lane as int, row as int).0,
        r.1 == spec_block_center(n_lanes as int, n_rows as int, lane as int, row as int).1,
{
    let x = left_wall_x(n_lanes) + lane * UNITS_PER_BLOCK + HALF_BLOCK;
    let y = floor_y(n_rows) + row * UNITS_PER_BLOCK + HALF_BLOCK;
    (x, y)
}

/// The row index of height `y` when it lies on the board, `None` below the floor or above
/// the top row.
pub fn row_index(n_rows: usize, y: i64) -> (r: Option<usize>)
    requires
        side_ok(n_rows as int),
    ensures
        r == (if 0 <= spec_row_of(n_rows as int, y as int) < n_rows {
            Some(spec_row_of(n_rows as int, y as int) as usize)
        } else {
            None::<usize>
        }),
{
    let floor = floor_y(n_rows);
    let top = floor + (n_rows as i64) * UNITS_PER_BLOCK;
    if y < floor {
        None
    } else if y >= top {
        proof {
            assert((y - floor) / 1024 >= n_rows) by (nonlinear_arith)
                requires
                    y - floor >= n_rows * 1024,
            ;
        }
        None
    } else {
        let d = (y - floor) as u64;
        let row = d / (UNITS_PER_BLOCK as u64);
        proof {
            assert(row < n_rows) by (nonlinear_arith)
                requires
                    d < n_rows * 1024,
                    row == d / 1024,
            ;
        }
        Some(row as usize)
    }
}

} // verus!
