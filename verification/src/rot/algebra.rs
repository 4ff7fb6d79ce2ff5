use core::ops::Mul;
use crate::Algebra;
use crate::exact::{exact, mat3_image};
use crate::laws::lemma_exp_is_rotation;
use crate::linalg::{Col3, Mat3};
use crate::matrices::is_rotation;
use crate::scalar::Real;
use crate::utils::{
    approx_zero, approx_zero_spec, axis_angle, axis_spec, hat, hat_spec, length, length_spec,
};
use super::{SO3, Vec3};
use vstd::prelude::*;
use vstd::std_specs::ops::MulSpecImpl;

verus! {

/// An element of the Lie algebra of rotations, held as the vector `(x, y, z)`
/// of the skew-symmetric matrix
///
/// ```text
///   0  -z   y
///   z   0  -x
///  -y   x   0
/// ```
#[allow(non_camel_case_types)]
#[derive(Clone, Debug, PartialEq)]
pub struct so3<T> {
    pub val: Col3<T>,
}

impl<T: Real> View for so3<T> {
    type V = Col3<T>;

    open spec fn view(&self) -> Col3<T> {
        self.val
    }
}

impl<T: Real> so3<T> {
    /// The generator with vector `(x, y, z)`.
    pub fn new(x: T, y: T, z: T) -> (r: Self)
        ensures
            r@ == (Col3 { x, y, z }),
    {
        so3 { val: Col3 { x, y, z } }
    }
}

impl<T: Real> Mul<T> for so3<T> {
    type Output = Self;

    /// Scales every component by `rhs`.
    fn mul(self, rhs: T) -> (r: Self) {
        so3 { val: self.val.scale(rhs) }
    }
}

impl<T: Real> MulSpecImpl<T> for so3<T> {
    open spec fn obeys_mul_spec() -> bool {
        true
    }

    open spec fn mul_req(self, rhs: T) -> bool {
        true
    }

    open spec fn mul_spec(self, rhs: T) -> Self {
        so3 { val: self.val.scale_spec(rhs) }
    }
}

/// The rotation matrix of the generator `w`, by Rodrigues' formula. With
/// `θ = |w|` and `S` the skew-symmetric matrix of the axis `w / θ`:
///
/// * where `θ` is below the tolerance, the identity;
/// * else `I + S·sin θ + S²·(1 − cos θ)`.
pub open spec fn exp_spec<T: Real>(w: Col3<T>) -> Mat3<T> {
    let theta = length_spec(w);
    if approx_zero_spec(theta) {
        Mat3::identity_spec()
    } else {
        let s = hat_spec(axis_spec(w));
        Mat3::identity_spec().add_spec(s.scale_spec(theta.sin_spec())).add_spec(
            s.mat_mul_spec(s).scale_spec(T::one_spec().sub_spec(theta.cos_spec())),
        )
    }
}

impl<T: Real> Algebra for so3<T> {
    type Group = SO3<T>;

    type Vector = Vec3<T>;

    /// The rotation about the axis `w / |w|` by the angle `|w|`. Where the
    /// scalar's arithmetic is exact, the matrix is orthonormal and has
    /// determinant one.
    fn exp(&self) -> (r: SO3<T>)
        ensures
            r@ == exp_spec(self@),
            forall|v: spec_fn(T) -> real| #[trigger] exact(v) ==> r.valid(v),
    {
        proof {
            assert forall|v: spec_fn(T) -> real| #[trigger] exact(v) implies is_rotation(
                mat3_image(v, exp_spec(self@)),
            ) by {
                lemma_exp_is_rotation(v, self@);
            }
        }
        if approx_zero(length(&self.val)) {
            SO3 { val: Mat3::identity() }
        } else {
            let (w, angle) = axis_angle(&self.val);
            let w_so3 = hat(&w);
            SO3 {
                val: Mat3::identity().add(w_so3.scale(angle.sin())).add(
                    w_so3.mat_mul(w_so3).scale(T::one().sub(angle.cos())),
                ),
            }
        }
    }

    /// The same three numbers, read as a rotation vector.
    fn vee(&self) -> (r: Vec3<T>)
        ensures
            r@ == self@,
    {
        Vec3 { val: self.val }
    }
}

} // verus!
