use core::ops::Mul;
use crate::Vector;
use crate::linalg::{scale6, scale6_spec};
use crate::scalar::Real;
use super::se3;
use vstd::prelude::*;
use vstd::std_specs::ops::MulSpecImpl;

verus! {

/// A twist vector: three scalars of rotation, then three of translation.
#[derive(Clone, Debug, PartialEq)]
pub struct Vec6<T> {
    pub val: [T; 6],
}

impl<T: Real> View for Vec6<T> {
    type V = Seq<T>;

    open spec fn view(&self) -> Seq<T> {
        self.val@
    }
}

impl<T: Real> Mul<T> for Vec6<T> {
    type Output = Self;

    /// Scales every component by `rhs`.
    fn mul(self, rhs: T) -> (r: Self) {
        Vec6 { val: scale6(&self.val, rhs) }
    }
}

impl<T: Real> MulSpecImpl<T> for Vec6<T> {
    open spec fn obeys_mul_spec() -> bool {
        true
    }

    open spec fn mul_req(self, rhs: T) -> bool {
        true
    }

    open spec fn mul_spec(self, rhs: T) -> Self {
        Vec6 { val: scale6_spec(self.val, rhs) }
    }
}

impl<T: Real> Mul<T> for &Vec6<T> {
    type Output = Vec6<T>;

    /// Scales every component by `rhs`.
    fn mul(self, rhs: T) -> (r: Vec6<T>) {
        Vec6 { val: scale6(&self.val, rhs) }
    }
}

impl<T: Real> MulSpecImpl<T> for &Vec6<T> {
    open spec fn obeys_mul_spec() -> bool {
        true
    }

    open spec fn mul_req(self, rhs: T) -> bool {
        true
    }

    open spec fn mul_spec(self, rhs: T) -> Vec6<T> {
        Vec6 { val: scale6_spec(self.val, rhs) }
    }
}

impl<T: Real> Mul<&T> for Vec6<T> {
    type Output = Vec6<T>;

    /// Scales every component by `rhs`.
    fn mul(self, rhs: &T) -> (r: Vec6<T>) {
        Vec6 { val: scale6(&self.val, *rhs) }
    }
}

impl<T: Real> MulSpecImpl<&T> for Vec6<T> {
    open spec fn obeys_mul_spec() -> bool {
        true
    }

    open spec fn mul_req(self, rhs: &T) -> bool {
        true
    }

    open spec fn mul_spec(self, rhs: &T) -> Vec6<T> {
        Vec6 { val: scale6_spec(self.val, *rhs) }
    }
}

impl<T: Real> Mul<&T> for &Vec6<T> {
    type Output = Vec6<T>;

    /// Scales every component by `rhs`.
    fn mul(self, rhs: &T) -> (r: Vec6<T>) {
        Vec6 { val: scale6(&self.val, *rhs) }
    }
}

impl<T: Real> MulSpecImpl<&T> for &Vec6<T> {
    open spec fn obeys_mul_spec() -> bool {
        true
    }

    open spec fn mul_req(self, rhs: &T) -> bool {
        true
    }

    open spec fn mul_spec(self, rhs: &T) -> Vec6<T> {
        Vec6 { val: scale6_spec(self.val, *rhs) }
    }
}

impl<T: Real> Vec6<T> {
    /// The twist vector with rotation part `r` and translation part `p`.
    pub fn new(r: [T; 3], p: [T; 3]) -> (v: Self)
        ensures
            v@ == r@ + p@,
    {
        let v = Vec6 { val: [r[0], r[1], r[2], p[0], p[1], p[2]] };
        assert(v@ =~= r@ + p@);
        v
    }

    /// The six components.
    pub fn as_array(&self) -> (r: [T; 6])
        ensures
            r@ == self@,
    {
        let r = [self.val[0], self.val[1], self.val[2], self.val[3], self.val[4], self.val[5]];
        assert(r@ =~= self@);
        r
    }

    /// The six components, borrowed.
    pub fn as_slice(&self) -> (r: &[T])
        ensures
            r@ == self@,
    {
        self.val.as_slice()
    }

    /// The rotation part: the first three components.
    pub fn r(&self) -> (r: [T; 3])
        ensures
            r@ == self@.subrange(0, 3),
    {
        let r = [self.val[0], self.val[1], self.val[2]];
        assert(r@ =~= self@.subrange(0, 3));
        r
    }

    /// The translation part: the last three components.
    pub fn p(&self) -> (r: [T; 3])
        ensures
            r@ == self@.subrange(3, 6),
    {
        let r = [self.val[3], self.val[4], self.val[5]];
        assert(r@ =~= self@.subrange(3, 6));
        r
    }
}

impl<T: Real> Vector for Vec6<T> {
    type Algebra = se3<T>;

    /// The same six numbers, read as a generator of rigid motions.
    fn hat(&self) -> (r: se3<T>)
        ensures
            r@ == self@,
    {
        se3 { val: self.val }
    }
}

} // verus!
