//! Column-major layout of a 4x4 matrix stored as sixteen entries.
//!
//! Entry `r * 4 + c` holds row `r`, column `c` of the stored layout.
use vstd::prelude::*;

verus! {

/// Position of row `r`, column `c` in the flat sixteen-entry layout.
pub open spec fn slot(r: int, c: int) -> int {
    r * 4 + c
}

/// `t` is the transpose of `m`: rows and columns exchanged.
pub open spec fn is_transpose_of<T>(t: Seq<T>, m: Seq<T>) -> bool {
    &&& t.len() == 16
    &&& m.len() == 16
    &&& forall|r: int, c: int|
        0 <= r < 4 && 0 <= c < 4 ==> #[trigger] t[slot(r, c)] == m[slot(c, r)]
}

/// Exchanges rows and columns of a matrix in the sixteen-entry layout.
pub fn transposed<T: Copy>(m: &[T; 16]) -> (t: [T; 16])
    ensures
        is_transpose_of(t@, m@),
{
    let t = [
        m[0], m[4], m[8], m[12],
        m[1], m[5], m[9], m[13],
        m[2], m[6], m[10], m[14],
        m[3], m[7], m[11], m[15],
    ];
    t
}

/// Transposing twice gives back the matrix that was transposed.
pub proof fn lemma_transpose_twice<T>(m: Seq<T>, t: Seq<T>, u: Seq<T>)
    requires
        is_transpose_of(t, m),
        is_transpose_of(u, t),
    ensures
        u == m,
{
    assert forall|j: int| 0 <= j < 16 implies u[j] == m[j] by {
        let r = j / 4;
        let c = j % 4;
        assert(j == slot(r, c));
        assert(u[slot(r, c)] == t[slot(c, r)]);
    }
    assert(u =~= m);
}

} // verus!
