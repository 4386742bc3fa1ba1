//! The owned matrix: what a matrix-like value becomes once it is evaluated.

use vstd::prelude::*;
use crate::traits::{Matrix, Transpose, UnsafeGet};

verus! {

/// Cuts `data` into `nrows` rows of `ncols` entries each: the entry at row
/// `r` and column `c` is the one at `r * ncols + c` in `data`.
pub open spec fn rows_of<T>(data: Seq<T>, nrows: nat, ncols: nat) -> Seq<Seq<T>> {
    Seq::new(nrows, |r: int| Seq::new(ncols, |c: int| data[r * ncols + c]))
}

/// In a matrix of `ncols` columns, row `r` and column `c` stand at
/// `r * ncols + c`, which is below `nrows * ncols`, and `r` and `c` are
/// found again as the quotient and the remainder by `ncols`.
pub proof fn lemma_position(nrows: int, ncols: int, r: int, c: int)
    requires
        0 <= r < nrows,
        0 <= c < ncols,
    ensures
        0 <= r * ncols + c < nrows * ncols,
        (r * ncols + c) / ncols == r,
        (r * ncols + c) % ncols == c,
{
    assert(0 <= r * ncols && (r + 1) * ncols <= nrows * ncols) by (nonlinear_arith)
        requires
            0 <= r < nrows,
            0 < ncols,
    ;
    assert((r + 1) * ncols == r * ncols + ncols) by (nonlinear_arith);
    vstd::arithmetic::div_mod::lemma_fundamental_div_mod_converse(r * ncols + c, ncols, r, c);
}

/// A matrix of `NROWS` rows and `NCOLS` columns that owns its entries.
pub struct Mat<T, const NROWS: usize, const NCOLS: usize> {
    /// The entries, row after row.
    data: Vec<T>,
}

impl<T, const NROWS: usize, const NCOLS: usize> Mat<T, NROWS, NCOLS> {
    #[verifier::type_invariant]
    spec fn is_full(self) -> bool {
        self.data.len() == NROWS * NCOLS
    }

    /// The entries, row after row, in one sequence.
    pub closed spec fn row_major(self) -> Seq<T> {
        self.data@
    }

    /// Takes `data`, the entries row after row, as a matrix. There is a
    /// matrix to return when `data` holds as many entries as the matrix has.
    pub fn from_row_major(data: Vec<T>) -> (m: Option<Self>)
        ensures
            m.is_some() <==> data@.len() == NROWS * NCOLS,
            m matches Some(mat) ==> mat.row_major() == data@,
    {
        let len: usize = data.len();
        match NROWS.checked_mul(NCOLS) {
            Some(n) => if len == n {
                Some(Mat { data })
            } else {
                None
            },
            None => None,
        }
    }
}

impl<T, const NROWS: usize, const NCOLS: usize> View for Mat<T, NROWS, NCOLS> {
    type V = Seq<Seq<T>>;

    /// The rows, each a sequence of `NCOLS` entries.
    open spec fn view(&self) -> Seq<Seq<T>> {
        rows_of(self.row_major(), NROWS as nat, NCOLS as nat)
    }
}

impl<'a, T: Copy, const NROWS: usize, const NCOLS: usize> UnsafeGet<NROWS, NCOLS> for &'a Mat<
    T,
    NROWS,
    NCOLS,
> {
    type Elem = T;

    open spec fn spec_get(self, r: int, c: int) -> T {
        self@[r][c]
    }

    fn unsafe_get(self, r: usize, c: usize) -> T {
        proof {
            use_type_invariant(self);
            lemma_position(NROWS as int, NCOLS as int, r as int, c as int);
        }
        self.data[r * NCOLS + c]
    }
}

impl<'a, T: Copy, const NROWS: usize, const NCOLS: usize> Matrix<NROWS, NCOLS> for &'a Mat<
    T,
    NROWS,
    NCOLS,
> {
}

impl<'a, T: Copy, const NROWS: usize, const NCOLS: usize> Transpose for &'a Mat<T, NROWS, NCOLS> {
}

} // verus!
