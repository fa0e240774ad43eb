//! Index topology of the torus mesh.
//!
//! The torus is tessellated into a grid of `(row + 1) * (column + 1)`
//! vertices: ring `i` (for `i` in `0..=row`) holds the vertices
//! `(column + 1) * i + ii` for `ii` in `0..=column`. The last ring and the
//! last step of each ring repeat the first ones, so every grid cell
//! `(i, ii)` with `i < row` and `ii < column` is a quad with four distinct
//! corner slots. Each quad is drawn as two triangles, six indices in all.
use vstd::prelude::*;
use vstd::arithmetic::div_mod::lemma_fundamental_div_mod_converse;

verus! {

/// Number of vertices in the torus grid.
pub open spec fn vertex_count(row: int, column: int) -> int {
    (row + 1) * (column + 1)
}

/// Index of the vertex at step `ii` of ring `i`.
pub open spec fn grid_vertex(column: int, i: int, ii: int) -> int {
    (column + 1) * i + ii
}

/// Corner `k` (in `0..6`) of the two triangles that cover the cell at ring
/// `i`, step `ii`: first `(a, b, c)`, then `(b, d, c)`, where `a` is the
/// cell's own vertex, `b` the one on the next ring, `c` the next step and
/// `d` the next step on the next ring.
pub open spec fn quad_corner(column: int, i: int, ii: int, k: int) -> int {
    let a = grid_vertex(column, i, ii);
    if k == 0 {
        a
    } else if k == 1 {
        a + column + 1
    } else if k == 2 {
        a + 1
    } else if k == 3 {
        a + column + 1
    } else if k == 4 {
        a + column + 2
    } else {
        a + 1
    }
}

/// Entry `j` of the index list: corner `j % 6` of quad `j / 6`, where quads
/// are numbered ring by ring, `column` to a ring.
pub open spec fn torus_index(column: int, j: int) -> int {
    let q = j / 6;
    quad_corner(column, q / column, q % column, j % 6)
}

/// Every corner of a cell inside the grid names a vertex of the grid.
proof fn lemma_cell_corners_in_grid(row: int, column: int, i: int, ii: int)
    requires
        0 <= i < row,
        0 <= ii < column,
    ensures
        grid_vertex(column, i, ii) + column + 2 < vertex_count(row, column),
{
    assert((column + 1) * i + ii + column + 2 < (row + 1) * (column + 1)) by (nonlinear_arith)
        requires
            0 <= i < row,
            0 <= ii < column,
    ;
}

/// Position `6 * q + k` of the index list holds corner `k` of quad `q`,
/// which lies at ring `i`, step `ii`.
proof fn lemma_torus_index_at(column: int, i: int, ii: int, k: int)
    requires
        0 <= i,
        0 <= ii < column,
        0 <= k < 6,
    ensures
        torus_index(column, 6 * (i * column + ii) + k) == quad_corner(column, i, ii, k),
{
    let q = i * column + ii;
    lemma_fundamental_div_mod_converse(6 * q + k, 6, q, k);
    lemma_fundamental_div_mod_converse(q, column, i, ii);
}

/// Triangle indices of a torus grid with `row` rings of `column` steps:
/// six per cell, cells in ring order, as `torus_index` gives them.
pub fn torus_indices(row: u16, column: u16) -> (idx: Vec<u16>)
    requires
        vertex_count(row as int, column as int) <= 0x1_0000,
    ensures
        idx@.len() == 6 * (row * column),
        forall|j: int| 0 <= j < idx@.len() ==> #[trigger] idx@[j] as int == torus_index(column as int, j),
        forall|j: int| 0 <= j < idx@.len() ==> #[trigger] idx@[j] < vertex_count(row as int, column as int),
{
    let mut idx: Vec<u16> = Vec::new();
    let mut i: u16 = 0;
    while i < row
        invariant
            i <= row,
            vertex_count(row as int, column as int) <= 0x1_0000,
            idx@.len() == 6 * (i * column),
            forall|j: int| 0 <= j < idx@.len() ==> #[trigger] idx@[j] as int == torus_index(column as int, j),
            forall|j: int| 0 <= j < idx@.len() ==> #[trigger] idx@[j] < vertex_count(row as int, column as int),
        decreases row - i,
    {
        let mut ii: u16 = 0;
        while ii < column
            invariant
                i < row,
                ii <= column,
                vertex_count(row as int, column as int) <= 0x1_0000,
                idx@.len() == 6 * (i * column + ii),
                forall|j: int| 0 <= j < idx@.len() ==> #[trigger] idx@[j] as int == torus_index(column as int, j),
                forall|j: int| 0 <= j < idx@.len() ==> #[trigger] idx@[j] < vertex_count(row as int, column as int),
            decreases column - ii,
        {
            proof {
                lemma_cell_corners_in_grid(row as int, column as int, i as int, ii as int);
            }
            let ghost before = idx@;
            let ghost start = idx@.len();
            let a: u16 = (column + 1) * i + ii;
            idx.push(a);
            idx.push(a + column + 1);
            idx.push(a + 1);
            idx.push(a + column + 1);
            idx.push(a + column + 2);
            idx.push(a + 1);
            proof {
                assert forall|k: int| 0 <= k < 6 implies #[trigger] idx@[start + k] as int
                    == torus_index(column as int, start + k) by {
                    lemma_torus_index_at(column as int, i as int, ii as int, k);
                }
                assert forall|j: int| 0 <= j < idx@.len() implies #[trigger] idx@[j] as int
                    == torus_index(column as int, j) by {
                    if j < start {
                        assert(idx@[j] == before[j]);
                    } else {
                        assert(idx@[start + (j - start)] as int == torus_index(column as int, start + (j - start)));
                    }
                }
            }
            ii = ii + 1;
        }
        assert(6 * (i * column + column) == 6 * ((i + 1) * column)) by (nonlinear_arith);
        i = i + 1;
    }
    idx
}

} // verus!
