//! Layout of 4x4 transform matrices stored as 16 entries in row-major order:
//! the entry in row `r` and column `c` stands at `4 * r + c`.

use vstd::prelude::*;

verus! {

/// Number of rows, and of columns, of a transform matrix.
pub const DIM: usize = 4;

/// Position of the entry in row `r` and column `c`.
pub open spec fn entry(r: int, c: int) -> int {
    4 * r + c
}

/// The transpose of `m`: row `r`, column `c` of the result is row `c`,
/// column `r` of `m`.
pub open spec fn transposed<T>(m: Seq<T>) -> Seq<T> {
    Seq::new(16, |i: int| m[entry(i % 4, i / 4)])
}

/// Index of the entry in row `r` and column `c`.
pub fn entry_index(r: usize, c: usize) -> (i: usize)
    requires
        r < DIM,
        c < DIM,
    ensures
        i == entry(r as int, c as int),
        i < 16,
{
    DIM * r + c
}

/// Exchanges rows and columns.
pub fn transpose<T: Copy>(m: &[T; 16]) -> (t: [T; 16])
    ensures
        t@ == transposed(m@),
{
    let mut t = *m;
    let mut r: usize = 0;
    while r < DIM
        invariant
            r <= DIM,
            t@.len() == 16,
            forall|i: int, c: int|
                0 <= i < r && 0 <= c < 4 ==> #[trigger] t@[entry(i, c)] == m@[entry(c, i)],
        decreases DIM - r,
    {
        let mut c: usize = 0;
        while c < DIM
            invariant
                r < DIM,
                c <= DIM,
                t@.len() == 16,
                forall|i: int, k: int|
                    0 <= i < r && 0 <= k < 4 ==> #[trigger] t@[entry(i, k)] == m@[entry(k, i)],
                forall|k: int| 0 <= k < c ==> #[trigger] t@[entry(r as int, k)] == m@[entry(k, r as int)],
            decreases DIM - c,
        {
            let src = entry_index(c, r);
            let dst = entry_index(r, c);
            t[dst] = m[src];
            c = c + 1;
        }
        r = r + 1;
    }
    assert forall|i: int| 0 <= i < 16 implies t@[i] == transposed(m@)[i] by {
        assert(i == entry(i / 4, i % 4));
    }
    assert(t@ =~= transposed(m@));
    t
}

/// Transposing twice gives the matrix back, entry for entry.
pub proof fn lemma_transpose_involution<T>(m: Seq<T>)
    requires
        m.len() == 16,
    ensures
        transposed(transposed(m)) == m,
{
    let t = transposed(m);
    assert forall|i: int| 0 <= i < 16 implies transposed(t)[i] == m[i] by {
        let j = entry(i % 4, i / 4);
        assert(0 <= j < 16);
        assert(j % 4 == i / 4 && j / 4 == i % 4);
        assert(i == entry(i / 4, i % 4));
    }
    assert(transposed(t) =~= m);
}

} // verus!
