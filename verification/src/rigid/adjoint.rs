use crate::Adjoint;
use crate::linalg::{array36, mat6_mul_vec, mat6_mul_vec_spec, transpose6, transpose6_spec};
use crate::scalar::Real;
use super::se3;
use vstd::prelude::*;

verus! {

/// The adjoint of a rigid motion `[[R, t], [0, 1]]`: the 6×6 matrix
///
/// ```text
///      R       0
///  skew(t)·R   R
/// ```
///
/// held column by column.
#[derive(Clone, Debug, PartialEq)]
pub struct AdjSE3<T> {
    pub val: [T; 36],
}

impl<T: Real> View for AdjSE3<T> {
    type V = Seq<T>;

    open spec fn view(&self) -> Seq<T> {
        self.val@
    }
}

impl<T: Real> AdjSE3<T> {
    /// Takes the first 36 items of `val`, listed column by column, as the
    /// matrix of an adjoint; `val` holds at least 36. Nothing checks that it
    /// is the adjoint of a rigid motion: that is the caller's part.
    pub fn new_unchecked(val: &[T]) -> (r: Self)
        requires
            val@.len() >= 36,
        ensures
            r@ == val@.subrange(0, 36),
    {
        AdjSE3 { val: array36(val) }
    }

    /// The transposed matrix.
    pub fn transpose(&self) -> (r: Self)
        ensures
            r@ == transpose6_spec(self@),
    {
        AdjSE3 { val: transpose6(&self.val) }
    }

    /// The 36 entries, column by column.
    pub fn as_slice(&self) -> (r: &[T])
        ensures
            r@ == self@,
    {
        self.val.as_slice()
    }
}

impl<T: Real> Adjoint for AdjSE3<T> {
    type Algebra = se3<T>;

    /// The twist `M · ξ`: the 6×6 matrix times the six scalars of `other`.
    fn act(&self, other: &se3<T>) -> (r: se3<T>)
        ensures
            r@ == mat6_mul_vec_spec(self@, other@),
    {
        se3 { val: mat6_mul_vec(&self.val, &other.val) }
    }
}

} // verus!
