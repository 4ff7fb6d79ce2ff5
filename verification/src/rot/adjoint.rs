use crate::Adjoint;
use crate::linalg::Mat3;
use crate::scalar::Real;
use super::so3;
use vstd::prelude::*;

verus! {

/// The adjoint of a rotation. Its matrix is the matrix of the rotation: the
/// adjoint turns a generator as the rotation turns a vector.
#[derive(Clone, Debug, PartialEq)]
pub struct AdjSO3<T> {
    pub val: Mat3<T>,
}

impl<T: Real> View for AdjSO3<T> {
    type V = Mat3<T>;

    open spec fn view(&self) -> Mat3<T> {
        self.val
    }
}

impl<T: Real> AdjSO3<T> {
    /// Takes the first nine items of `val`, listed column by column, as the
    /// matrix of an adjoint; `val` holds at least nine. Nothing checks that
    /// it is the adjoint of a rotation: that is the caller's part.
    pub fn new_unchecked(val: &[T]) -> (r: Self)
        requires
            val@.len() >= 9,
        ensures
            r@ == Mat3::from_column_seq(val@),
    {
        AdjSO3 { val: Mat3::from_column_slice(val) }
    }
}

impl<T: Real> Adjoint for AdjSO3<T> {
    type Algebra = so3<T>;

    /// The generator `R · w`.
    fn act(&self, other: &so3<T>) -> (r: so3<T>)
        ensures
            r@ == self@.mul_vec_spec(other@),
    {
        so3 { val: self.val.mul_vec(other.val) }
    }
}

} // verus!
