use core::ops::Mul;
use crate::Vector;
use crate::linalg::Col3;
use crate::scalar::Real;
use super::so3;
use vstd::prelude::*;
use vstd::std_specs::ops::MulSpecImpl;

verus! {

/// A rotation vector: the axis of a rotation, scaled by its angle.
#[derive(Clone, Debug, PartialEq)]
pub struct Vec3<T> {
    pub val: Col3<T>,
}

impl<T: Real> View for Vec3<T> {
    type V = Col3<T>;

    open spec fn view(&self) -> Col3<T> {
        self.val
    }
}

impl<T: Real> Mul<T> for Vec3<T> {
    type Output = Self;

    /// Scales every component by `rhs`.
    fn mul(self, rhs: T) -> (r: Self) {
        Vec3 { val: self.val.scale(rhs) }
    }
}

impl<T: Real> MulSpecImpl<T> for Vec3<T> {
    open spec fn obeys_mul_spec() -> bool {
        true
    }

    open spec fn mul_req(self, rhs: T) -> bool {
        true
    }

    open spec fn mul_spec(self, rhs: T) -> Self {
        Vec3 { val: self.val.scale_spec(rhs) }
    }
}

impl<T: Real> Vec3<T> {
    /// The rotation vector `(x, y, z)`.
    pub fn new(x: T, y: T, z: T) -> (r: Self)
        ensures
            r@ == (Col3 { x, y, z }),
    {
        Vec3 { val: Col3 { x, y, z } }
    }

    /// The three components.
    pub fn get(&self) -> (r: [T; 3])
        ensures
            r@ == self@.to_seq(),
    {
        [self.val.x, self.val.y, self.val.z]
    }
}

impl<T: Real> Vector for Vec3<T> {
    type Algebra = so3<T>;

    /// The same three numbers, read as a generator of rotations.
    fn hat(&self) -> (r: so3<T>)
        ensures
            r@ == self@,
    {
        so3 { val: self.val }
    }
}

} // verus!
