//! A position in space, on which rotations and rigid motions act.

use crate::linalg::Col3;
use crate::scalar::Real;
use vstd::prelude::*;

verus! {

/// A point in three-dimensional space.
#[derive(Clone, Debug, PartialEq)]
pub struct Point<T> {
    pub val: Col3<T>,
}

impl<T: Real> View for Point<T> {
    type V = Col3<T>;

    open spec fn view(&self) -> Col3<T> {
        self.val
    }
}

impl<T: Real> Point<T> {
    /// The point with coordinates `(x, y, z)`.
    pub fn new(x: T, y: T, z: T) -> (r: Self)
        ensures
            r@ == (Col3 { x, y, z }),
    {
        Point { val: Col3 { x, y, z } }
    }

    /// The first coordinate.
    pub fn x(&self) -> (r: T)
        ensures
            r == self@.x,
    {
        self.val.x
    }

    /// The second coordinate.
    pub fn y(&self) -> (r: T)
        ensures
            r == self@.y,
    {
        self.val.y
    }

    /// The third coordinate.
    pub fn z(&self) -> (r: T)
        ensures
            r == self@.z,
    {
        self.val.z
    }
}

} // verus!
