//! The numeric kernel that the rotation and the rigid-motion formulas share.

use crate::linalg::{Col3, Mat3};
use crate::scalar::Real;
use vstd::prelude::*;

verus! {

/// `v` lies below the scalar's tolerance.
pub open spec fn approx_zero_spec<T: Real>(v: T) -> bool {
    v.lt_spec(T::epsilon_spec())
}

/// Tells whether `v` lies below the scalar's tolerance. The test is one
/// sided: every negative `v` passes it.
pub fn approx_zero<T: Real>(v: T) -> (r: bool)
    ensures
        r == approx_zero_spec(v),
{
    v.lt(T::epsilon())
}

/// The Euclidean length `sqrt(x*x + y*y + z*z)`.
pub open spec fn length_spec<T: Real>(v: Col3<T>) -> T {
    v.x.mul_spec(v.x).add_spec(v.y.mul_spec(v.y)).add_spec(v.z.mul_spec(v.z)).sqrt_spec()
}

/// Computes the Euclidean length of `v`.
pub fn length<T: Real>(v: &Col3<T>) -> (r: T)
    ensures
        r == length_spec(*v),
{
    v.x.mul(v.x).add(v.y.mul(v.y)).add(v.z.mul(v.z)).sqrt()
}

/// The length of `v` lies below the scalar's tolerance.
pub open spec fn approx_zero_vec_spec<T: Real>(v: Col3<T>) -> bool {
    approx_zero_spec(length_spec(v))
}

/// Tells whether the length of `v` lies below the scalar's tolerance.
pub fn approx_zero_vec<T: Real>(v: &Col3<T>) -> (r: bool)
    ensures
        r == approx_zero_vec_spec(*v),
{
    length(v).lt(T::epsilon())
}

/// The direction `v / |v|` of `v`.
pub open spec fn axis_spec<T: Real>(v: Col3<T>) -> Col3<T> {
    v.div_spec(length_spec(v))
}

/// Splits `v` into its direction and its length. The direction is the
/// quotient `v / |v|` whatever the length is; it is a unit vector only where
/// the length is not zero, so callers test the length first.
pub fn axis_angle<T: Real>(v: &Col3<T>) -> (r: (Col3<T>, T))
    ensures
        r.0 == axis_spec(*v),
        r.1 == length_spec(*v),
{
    let angle = length(v);
    (v.div(angle), angle)
}

/// The skew-symmetric matrix of `v`, whose product with a column `u` is the
/// cross product `v × u`:
///
/// ```text
///   0  -z   y
///   z   0  -x
///  -y   x   0
/// ```
pub open spec fn hat_spec<T: Real>(v: Col3<T>) -> Mat3<T> {
    let zero = T::zero_spec();
    Mat3 {
        m00: zero,
        m01: v.z.neg_spec(),
        m02: v.y,
        m10: v.z,
        m11: zero,
        m12: v.x.neg_spec(),
        m20: v.y.neg_spec(),
        m21: v.x,
        m22: zero,
    }
}

/// Builds the skew-symmetric matrix of `v`.
pub fn hat<T: Real>(v: &Col3<T>) -> (r: Mat3<T>)
    ensures
        r == hat_spec(*v),
{
    let zero = T::zero();
    Mat3::new(zero, v.z.neg(), v.y, v.z, zero, v.x.neg(), v.y.neg(), v.x, zero)
}

} // verus!
