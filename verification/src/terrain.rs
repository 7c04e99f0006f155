//! The sample grid of the bowl-shaped terrain: how grid points are laid out
//! in the row-major height buffer and which samples a cell is blended from.
use vstd::prelude::*;

verus! {

/// Number of grid cells along one side of the square terrain.
pub const CELLS_PER_SIDE: u32 = 128;

/// Number of height samples along one side: one more than the cells.
pub const POINTS_PER_SIDE: u32 = 129;

/// A point of the terrain's sample grid, by column `x` and row `y`.
#[derive(Clone, Copy, Debug, PartialEq, Eq, Structural)]
pub struct GridPoint {
    pub x: u32,
    pub y: u32,
}

/// Row-major position of the sample at column `x`, row `y`.
pub open spec fn flat_index(x: int, y: int) -> int {
    y * POINTS_PER_SIDE + x
}

/// Whether a point lies on the sample grid.
pub open spec fn on_grid(p: GridPoint) -> bool {
    p.x < POINTS_PER_SIDE && p.y < POINTS_PER_SIDE
}

/// Number of height samples of the whole grid.
pub open spec fn grid_sample_count() -> int {
    POINTS_PER_SIDE * POINTS_PER_SIDE
}

/// Index of the height sample for `p` in the row-major height buffer.
pub fn flatten(p: GridPoint) -> (index: usize)
    requires
        flat_index(p.x as int, p.y as int) <= u32::MAX,
    ensures
        index == flat_index(p.x as int, p.y as int),
{
    (p.y * POINTS_PER_SIDE + p.x) as usize
}

/// Number of height samples the terrain holds.
pub fn sample_count() -> (count: usize)
    ensures
        count == grid_sample_count(),
{
    (POINTS_PER_SIDE * POINTS_PER_SIDE) as usize
}

/// Number of vertices drawn for the terrain: two triangles per cell.
pub fn vertex_count() -> (count: u32)
    ensures
        count == CELLS_PER_SIDE * CELLS_PER_SIDE * 6,
{
    CELLS_PER_SIDE * CELLS_PER_SIDE * 6
}

/// The four height samples that a height inside a cell is blended from.
#[derive(Clone, Copy, Debug, PartialEq, Eq, Structural)]
pub struct CellCorners {
    /// The sample at the cell's own column and row.
    pub i00: usize,
    /// The sample one column further.
    pub i10: usize,
    /// The sample one row further.
    pub i01: usize,
    /// The sample one column and one row further.
    pub i11: usize,
}

/// The next column or row after `v`, held on the last one of the grid.
pub open spec fn next_on_grid(v: int) -> int {
    if v + 1 < POINTS_PER_SIDE - 1 {
        v + 1
    } else {
        POINTS_PER_SIDE - 1
    }
}

/// The samples blended for a point in the cell whose lower corner is at
/// column `x0`, row `z0`; on the last column or row the far samples are
/// those of that column or row itself.
pub fn cell_corners(x0: u32, z0: u32) -> (corners: CellCorners)
    requires
        x0 < POINTS_PER_SIDE,
        z0 < POINTS_PER_SIDE,
    ensures
        corners.i00 == flat_index(x0 as int, z0 as int),
        corners.i10 == flat_index(next_on_grid(x0 as int), z0 as int),
        corners.i01 == flat_index(x0 as int, next_on_grid(z0 as int)),
        corners.i11 == flat_index(next_on_grid(x0 as int), next_on_grid(z0 as int)),
        corners.i00 < grid_sample_count(),
        corners.i10 < grid_sample_count(),
        corners.i01 < grid_sample_count(),
        corners.i11 < grid_sample_count(),
        x0 < POINTS_PER_SIDE - 1 ==> corners.i10 == corners.i00 + 1 && corners.i11 == corners.i01
            + 1,
        x0 == POINTS_PER_SIDE - 1 ==> corners.i10 == corners.i00 && corners.i11 == corners.i01,
        z0 < POINTS_PER_SIDE - 1 ==> corners.i01 == corners.i00 + POINTS_PER_SIDE && corners.i11
            == corners.i10 + POINTS_PER_SIDE,
        z0 == POINTS_PER_SIDE - 1 ==> corners.i01 == corners.i00 && corners.i11 == corners.i10,
{
    let x1 = if x0 + 1 < POINTS_PER_SIDE - 1 {
        x0 + 1
    } else {
        POINTS_PER_SIDE - 1
    };
    let z1 = if z0 + 1 < POINTS_PER_SIDE - 1 {
        z0 + 1
    } else {
        POINTS_PER_SIDE - 1
    };
    proof {
        lemma_flat_index_in_range(x0 as int, z0 as int);
        lemma_flat_index_in_range(x1 as int, z0 as int);
        lemma_flat_index_in_range(x0 as int, z1 as int);
        lemma_flat_index_in_range(x1 as int, z1 as int);
    }
    CellCorners {
        i00: flatten(GridPoint { x: x0, y: z0 }),
        i10: flatten(GridPoint { x: x1, y: z0 }),
        i01: flatten(GridPoint { x: x0, y: z1 }),
        i11: flatten(GridPoint { x: x1, y: z1 }),
    }
}

/// The far column or row of a cell is the next one on the grid, except on
/// the last column or row, which is its own far side.
pub proof fn lemma_next_on_grid(v: int)
    requires
        0 <= v < POINTS_PER_SIDE,
    ensures
        v < POINTS_PER_SIDE - 1 ==> next_on_grid(v) == v + 1,
        v == POINTS_PER_SIDE - 1 ==> next_on_grid(v) == v,
        v <= next_on_grid(v) <= v + 1,
        next_on_grid(v) < POINTS_PER_SIDE,
{
}

/// Moving one column along the grid moves one sample along the buffer, and
/// moving one row along moves a whole row of samples.
pub proof fn lemma_neighbour_indices(x: int, y: int)
    ensures
        flat_index(x + 1, y) == flat_index(x, y) + 1,
        flat_index(x, y + 1) == flat_index(x, y) + POINTS_PER_SIDE,
{
}

/// A grid point's sample index lies inside the height buffer.
pub proof fn lemma_flat_index_in_range(x: int, y: int)
    requires
        0 <= x < POINTS_PER_SIDE,
        0 <= y < POINTS_PER_SIDE,
    ensures
        0 <= flat_index(x, y) < grid_sample_count(),
{
    assert(y * POINTS_PER_SIDE <= (POINTS_PER_SIDE - 1) * POINTS_PER_SIDE) by (nonlinear_arith)
        requires
            0 <= y < POINTS_PER_SIDE,
    ;
    assert(0 <= y * POINTS_PER_SIDE) by (nonlinear_arith)
        requires
            0 <= y,
    ;
}

/// Distinct grid points have distinct sample indices, and every index of
/// the height buffer is the index of exactly one grid point: the grid and
/// the buffer are in one-to-one correspondence.
pub proof fn lemma_flatten_bijective(p: GridPoint, q: GridPoint, i: int)
    requires
        on_grid(p),
        on_grid(q),
        0 <= i < grid_sample_count(),
    ensures
        0 <= flat_index(p.x as int, p.y as int) < grid_sample_count(),
        flat_index(p.x as int, p.y as int) == flat_index(q.x as int, q.y as int) ==> p == q,
        on_grid(GridPoint { x: (i % POINTS_PER_SIDE as int) as u32, y: (i / POINTS_PER_SIDE as int) as u32 }),
        flat_index(i % POINTS_PER_SIDE as int, i / POINTS_PER_SIDE as int) == i,
{
    lemma_flat_index_in_range(p.x as int, p.y as int);
    let n = POINTS_PER_SIDE as int;
    if flat_index(p.x as int, p.y as int) == flat_index(q.x as int, q.y as int) {
        assert(p.y == q.y && p.x == q.x) by (nonlinear_arith)
            requires
                p.y * n + p.x == q.y * n + q.x,
                0 <= p.x < n,
                0 <= q.x < n,
                0 <= p.y,
                0 <= q.y,
                n == 129,
        ;
    }
    assert(i == (i / n) * n + i % n && 0 <= i % n < n && 0 <= i / n < n) by (nonlinear_arith)
        requires
            0 <= i < n * n,
            n == 129,
    ;
}

} // verus!
