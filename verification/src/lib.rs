//! Fixed-size matrices whose dimensions are part of their type.
//!
//! A matrix-like value is anything that can hand out the entry at a row and
//! a column. Such values compose without copying ([`Transpose`] swaps the
//! two indices of the value it wraps) and are evaluated into owned storage
//! only on request.

use vstd::prelude::*;

pub mod laws;
pub mod mat;
pub mod traits;

pub use mat::Mat;

verus! {

/// The transpose of the matrix-like value `m`: a view that owns no entries
/// and reads entry `(r, c)` from `m` at `(c, r)`.
pub struct Transpose<M> {
    /// The value that this view reads from.
    pub m: M,
}

impl<M: Copy> Clone for Transpose<M> {
    fn clone(&self) -> (v: Self)
        ensures
            v == *self,
    {
        *self
    }
}

impl<M: Copy> Copy for Transpose<M> {
}

impl<M: traits::UnsafeGet<NROWS, NCOLS>, const NROWS: usize, const NCOLS: usize> traits::UnsafeGet<
    NCOLS,
    NROWS,
> for Transpose<M> {
    type Elem = M::Elem;

    open spec fn spec_get(self, r: int, c: int) -> M::Elem {
        self.m.spec_get(c, r)
    }

    fn unsafe_get(self, r: usize, c: usize) -> M::Elem {
        self.m.unsafe_get(c, r)
    }
}

impl<M: traits::Matrix<NROWS, NCOLS>, const NROWS: usize, const NCOLS: usize> traits::Matrix<
    NCOLS,
    NROWS,
> for Transpose<M> {
}

impl<M: Copy> traits::Transpose for Transpose<M> {
}

} // verus!
