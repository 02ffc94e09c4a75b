//! Placement of the mesh grid: a 10 x 10 x 10 block of mesh copies, one per
//! cell, drawn in row-major order (x outermost, z innermost).
//!
//! Each cell's model transform is a fixed uniform scale plus a translation
//! unique to the cell. The translation steps 0.4 world units per cell from
//! a corner at (-1.8, -1.8, 1.0), so in tenths of a world unit it is exact
//! integer arithmetic: 4 per cell from (-18, -18, 10). The render loop
//! divides by ten when it builds the floating-point matrix.

use vstd::prelude::*;

verus! {

/// Cells per grid axis.
pub const GRID_DIM: usize = 10;

/// Cells in the whole grid.
pub const GRID_CELLS: usize = 1000;

/// World-space offset of a cell along the x or y axis, in tenths of a unit:
/// -1.8 plus 0.4 per cell.
pub open spec fn spec_offset_xy_tenths(c: int) -> int {
    -18 + 4 * c
}

/// World-space offset of a cell along the z axis, in tenths of a unit:
/// 1.0 plus 0.4 per cell.
pub open spec fn spec_offset_z_tenths(c: int) -> int {
    10 + 4 * c
}

/// The coordinates of the `i`-th cell drawn, in row-major order: x varies
/// slowest, z fastest.
pub fn cell_coords(i: usize) -> (c: (usize, usize, usize))
    requires
        i < GRID_CELLS,
    ensures
        c.0 == i / 100 && c.1 == (i / 10) % 10 && c.2 == i % 10,
        c.0 < GRID_DIM && c.1 < GRID_DIM && c.2 < GRID_DIM,
        i == c.0 * 100 + c.1 * 10 + c.2,
{
    let x = i / 100;
    let y = (i / 10) % 10;
    let z = i % 10;
    assert(i == x * 100 + y * 10 + z) by (nonlinear_arith)
        requires
            i < 1000 && x == i / 100 && y == (i / 10) % 10 && z == i % 10,
    ;
    (x, y, z)
}

/// The position in row-major draw order of the cell at `(x, y, z)`.
pub fn cell_index(x: usize, y: usize, z: usize) -> (i: usize)
    requires
        x < GRID_DIM,
        y < GRID_DIM,
        z < GRID_DIM,
    ensures
        i == x * 100 + y * 10 + z,
        i < GRID_CELLS,
{
    x * 100 + y * 10 + z
}

/// The translation of the cell at `(x, y, z)`, in tenths of a world unit.
pub fn cell_offsets_tenths(x: usize, y: usize, z: usize) -> (o: (i32, i32, i32))
    requires
        x < GRID_DIM,
        y < GRID_DIM,
        z < GRID_DIM,
    ensures
        o.0 == spec_offset_xy_tenths(x as int),
        o.1 == spec_offset_xy_tenths(y as int),
        o.2 == spec_offset_z_tenths(z as int),
{
    (-18 + 4 * (x as i32), -18 + 4 * (y as i32), 10 + 4 * (z as i32))
}

/// Drawing order is a bijection between indices and cells: the coordinates
/// of the `i`-th cell index back to `i`, and distinct cells never share an
/// index.
pub proof fn lemma_draw_order_bijective(x: int, y: int, z: int)
    requires
        0 <= x < GRID_DIM,
        0 <= y < GRID_DIM,
        0 <= z < GRID_DIM,
    ensures
        (x * 100 + y * 10 + z) / 100 == x,
        ((x * 100 + y * 10 + z) / 10) % 10 == y,
        (x * 100 + y * 10 + z) % 10 == z,
{
    assert((x * 100 + y * 10 + z) / 100 == x
        && ((x * 100 + y * 10 + z) / 10) % 10 == y
        && (x * 100 + y * 10 + z) % 10 == z) by (nonlinear_arith)
        requires
            0 <= x < 10 && 0 <= y < 10 && 0 <= z < 10,
    ;
}

} // verus!
