//! What holds of every matrix-like value, stated over the entries that the
//! operations are specified by.

use vstd::prelude::*;
use crate::traits::{entries, UnsafeGet, Zero};
use crate::Transpose;

verus! {

/// The entries of a matrix-like value form `NROWS` rows of `NCOLS` entries,
/// and the one at row `r` and column `c` is the one that the value itself
/// has there.
pub proof fn lemma_entries<M: UnsafeGet<NROWS, NCOLS>, const NROWS: usize, const NCOLS: usize>(
    m: M,
    r: int,
    c: int,
)
    requires
        0 <= r < NROWS,
        0 <= c < NCOLS,
    ensures
        entries::<M, NROWS, NCOLS>(m).len() == NROWS,
        entries::<M, NROWS, NCOLS>(m)[r].len() == NCOLS,
        entries::<M, NROWS, NCOLS>(m)[r][c] == m.spec_get(r, c),
{
}

/// The transpose of a matrix of `NROWS` rows and `NCOLS` columns has
/// `NCOLS` rows and `NROWS` columns, and its entry at row `c` and column
/// `r` is the entry of the matrix at row `r` and column `c`.
pub proof fn lemma_transpose<M: UnsafeGet<NROWS, NCOLS>, const NROWS: usize, const NCOLS: usize>(
    m: M,
    r: int,
    c: int,
)
    requires
        0 <= r < NROWS,
        0 <= c < NCOLS,
    ensures
        (Transpose { m }).spec_get(c, r) == m.spec_get(r, c),
        entries::<Transpose<M>, NCOLS, NROWS>(Transpose { m }).len() == NCOLS,
        entries::<Transpose<M>, NCOLS, NROWS>(Transpose { m })[c].len() == NROWS,
        entries::<Transpose<M>, NCOLS, NROWS>(Transpose { m })[c][r] == entries::<
            M,
            NROWS,
            NCOLS,
        >(m)[r][c],
{
}

/// The transpose of the transpose of a matrix has the entries of the
/// matrix, so evaluating the one gives what evaluating the other gives.
pub proof fn lemma_double_transpose<
    M: UnsafeGet<NROWS, NCOLS>,
    const NROWS: usize,
    const NCOLS: usize,
>(m: M)
    ensures
        entries::<Transpose<Transpose<M>>, NROWS, NCOLS>(Transpose { m: Transpose { m } })
            == entries::<M, NROWS, NCOLS>(m),
{
    assert(entries::<Transpose<Transpose<M>>, NROWS, NCOLS>(Transpose { m: Transpose { m } })
        =~~= entries::<M, NROWS, NCOLS>(m));
}

/// Adding the zero of a scalar type to a value of that type, on either
/// side, gives back the value.
pub proof fn lemma_zero_is_additive_identity(
    a: i8,
    b: i16,
    c: i32,
    d: i64,
    e: isize,
    f: u8,
    g: u16,
    h: u32,
    i: u64,
    j: usize,
)
    ensures
        a + i8::zero_spec() == a && i8::zero_spec() + a == a,
        b + i16::zero_spec() == b && i16::zero_spec() + b == b,
        c + i32::zero_spec() == c && i32::zero_spec() + c == c,
        d + i64::zero_spec() == d && i64::zero_spec() + d == d,
        e + isize::zero_spec() == e && isize::zero_spec() + e == e,
        f + u8::zero_spec() == f && u8::zero_spec() + f == f,
        g + u16::zero_spec() == g && u16::zero_spec() + g == g,
        h + u32::zero_spec() == h && u32::zero_spec() + h == h,
        i + u64::zero_spec() == i && u64::zero_spec() + i == i,
        j + usize::zero_spec() == j && usize::zero_spec() + j == j,
{
}

} // verus!
