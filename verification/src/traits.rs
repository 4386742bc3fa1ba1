//! The capabilities of matrix-like values.

use vstd::prelude::*;
use vstd::pervasive::runtime_assert;
use crate::mat::{lemma_position, Mat};

verus! {

/// Entry access without a bounds check, by a value that stands for a matrix
/// of `NROWS` rows and `NCOLS` columns. The value is taken by copy, so it
/// can be read any number of times.
pub trait UnsafeGet<const NROWS: usize, const NCOLS: usize>: Copy {
    /// The type of the entries.
    type Elem: Copy;

    /// The entry at row `r` and column `c`.
    spec fn spec_get(self, r: int, c: int) -> Self::Elem;

    /// Returns the entry at row `r` and column `c`. Nothing is checked
    /// when the program runs: the caller answers for the indices.
    fn unsafe_get(self, r: usize, c: usize) -> (e: Self::Elem)
        requires
            r < NROWS,
            c < NCOLS,
        ensures
            e == self.spec_get(r as int, c as int),
    ;
}

/// The entries of the matrix-like value `m`, row by row: `NROWS` rows of
/// `NCOLS` entries each.
pub open spec fn entries<M: UnsafeGet<NROWS, NCOLS>, const NROWS: usize, const NCOLS: usize>(
    m: M,
) -> Seq<Seq<M::Elem>> {
    Seq::new(NROWS as nat, |r: int| Seq::new(NCOLS as nat, |c: int| m.spec_get(r, c)))
}

/// A matrix of `NROWS` rows and `NCOLS` columns.
pub trait Matrix<const NROWS: usize, const NCOLS: usize>: UnsafeGet<NROWS, NCOLS> {
    /// Returns the entry at row `r` and column `c`. The indices are checked
    /// once more when the program runs, so that a caller that was not
    /// verified and passes an index out of range is stopped there.
    fn get(self, r: usize, c: usize) -> (e: Self::Elem)
        requires
            r < NROWS,
            c < NCOLS,
        ensures
            e == self.spec_get(r as int, c as int),
    {
        runtime_assert(r < self.nrows() && c < self.ncols());
        self.unsafe_get(r, c)
    }

    /// Evaluates the matrix into one that owns its entries. The entries
    /// are read once each, row after row and from the first column to the
    /// last within a row, and each is stored as it is read.
    fn collect(self) -> (m: Mat<Self::Elem, NROWS, NCOLS>)
        requires
            NROWS * NCOLS <= usize::MAX,
        ensures
            m@ == entries::<Self, NROWS, NCOLS>(self),
    {
        let mut data: Vec<Self::Elem> = Vec::with_capacity(NROWS * NCOLS);
        let mut i: usize = 0;
        while i < NROWS
            invariant
                i <= NROWS,
                NROWS * NCOLS <= usize::MAX,
                data@.len() == i * NCOLS,
                forall|k: int|
                    0 <= k < data@.len() ==> data@[k] == self.spec_get(
                        k / (NCOLS as int),
                        k % (NCOLS as int),
                    ),
            decreases NROWS - i,
        {
            let mut j: usize = 0;
            while j < NCOLS
                invariant
                    i < NROWS,
                    j <= NCOLS,
                    data@.len() == i * NCOLS + j,
                    forall|k: int|
                        0 <= k < data@.len() ==> data@[k] == self.spec_get(
                            k / (NCOLS as int),
                            k % (NCOLS as int),
                        ),
                decreases NCOLS - j,
            {
                proof {
                    lemma_position(NROWS as int, NCOLS as int, i as int, j as int);
                }
                data.push(self.unsafe_get(i, j));
                j += 1;
            }
            proof {
                assert((i + 1) * NCOLS == i * NCOLS + NCOLS) by (nonlinear_arith);
            }
            i += 1;
        }
        let m = Mat::from_row_major(data).unwrap();
        proof {
            assert forall|r: int, c: int| 0 <= r < NROWS && 0 <= c < NCOLS implies m@[r][c]
                == self.spec_get(r, c) by {
                lemma_position(NROWS as int, NCOLS as int, r, c);
            }
            assert(m@ =~~= entries::<Self, NROWS, NCOLS>(self));
        }
        m
    }

    /// Returns the number of rows and the number of columns.
    fn size(self) -> (s: (usize, usize))
        ensures
            s == (NROWS, NCOLS),
    {
        (NROWS, NCOLS)
    }

    /// Returns the number of rows.
    fn nrows(self) -> (n: usize)
        ensures
            n == NROWS,
    {
        self.size().0
    }

    /// Returns the number of columns.
    fn ncols(self) -> (n: usize)
        ensures
            n == NCOLS,
    {
        self.size().1
    }
}

/// The transpose operation.
pub trait Transpose: Copy {
    /// Wraps `self` in its transposed view.
    fn t(self) -> (v: crate::Transpose<Self>)
        ensures
            v.m == self,
    {
        crate::Transpose { m: self }
    }
}

/// Types that have a "zero" value.
pub trait Zero: Sized {
    /// The value of this type that stands for the number zero.
    spec fn zero_spec() -> Self;

    /// Returns the value of this type that stands for the number zero.
    fn zero() -> (z: Self)
        ensures
            z == Self::zero_spec(),
    ;
}

impl Zero for i8 {
    open spec fn zero_spec() -> i8 {
        0
    }

    fn zero() -> i8 {
        0
    }
}

impl Zero for i16 {
    open spec fn zero_spec() -> i16 {
        0
    }

    fn zero() -> i16 {
        0
    }
}

impl Zero for i32 {
    open spec fn zero_spec() -> i32 {
        0
    }

    fn zero() -> i32 {
        0
    }
}

impl Zero for i64 {
    open spec fn zero_spec() -> i64 {
        0
    }

    fn zero() -> i64 {
        0
    }
}

impl Zero for isize {
    open spec fn zero_spec() -> isize {
        0
    }

    fn zero() -> isize {
        0
    }
}

impl Zero for u8 {
    open spec fn zero_spec() -> u8 {
        0
    }

    fn zero() -> u8 {
        0
    }
}

impl Zero for u16 {
    open spec fn zero_spec() -> u16 {
        0
    }

    fn zero() -> u16 {
        0
    }
}

impl Zero for u32 {
    open spec fn zero_spec() -> u32 {
        0
    }

    fn zero() -> u32 {
        0
    }
}

impl Zero for u64 {
    open spec fn zero_spec() -> u64 {
        0
    }

    fn zero() -> u64 {
        0
    }
}

impl Zero for usize {
    open spec fn zero_spec() -> usize {
        0
    }

    fn zero() -> usize {
        0
    }
}

} // verus!
