use core::ops::{Add, Mul};
use crate::{rot, Algebra};
use crate::exact::{exact, mat4_image};
use crate::laws::lemma_exp_is_rigid;
use crate::linalg::{
    add6, add6_spec, lower, lower_spec, scale6, scale6_spec, upper, upper_spec, Col3, Mat3, Mat4,
};
use crate::matrices::is_rigid;
use crate::rot::so3;
use crate::scalar::Real;
use crate::utils::{approx_zero, approx_zero_spec, axis_spec, hat, hat_spec, length, length_spec};
use super::{SE3, Vec6};
use vstd::prelude::*;
use vstd::std_specs::ops::{AddSpecImpl, MulSpecImpl};

verus! {

/// An element of the Lie algebra of rigid motions, held as the six scalars
/// `(w, v)` of the matrix
///
/// ```text
///    0  -wz   wy  vx
///   wz    0  -wx  vy
///  -wy   wx    0  vz
///    0    0    0   0
/// ```
#[allow(non_camel_case_types)]
#[derive(Clone, Debug, PartialEq)]
pub struct se3<T> {
    pub val: [T; 6],
}

impl<T: Real> View for se3<T> {
    type V = Seq<T>;

    open spec fn view(&self) -> Seq<T> {
        self.val@
    }
}

impl<T: Real> se3<T> {
    /// The generator with rotation part `r` and translation part `p`.
    pub fn new(r: [T; 3], p: [T; 3]) -> (v: Self)
        ensures
            v@ == r@ + p@,
    {
        let v = se3 { val: [r[0], r[1], r[2], p[0], p[1], p[2]] };
        assert(v@ =~= r@ + p@);
        v
    }

    /// The zero generator, whose exponential is the identity motion.
    pub fn identity() -> (v: Self)
        ensures
            v@ == Seq::new(6, |i: int| T::zero_spec()),
    {
        let z = T::zero();
        let v = se3 { val: [z, z, z, z, z, z] };
        assert(v@ =~= Seq::new(6, |i: int| T::zero_spec()));
        v
    }
}

impl<T: Real> Mul<T> for se3<T> {
    type Output = Self;

    /// Scales every component by `rhs`.
    fn mul(self, rhs: T) -> (r: Self) {
        se3 { val: scale6(&self.val, rhs) }
    }
}

impl<T: Real> MulSpecImpl<T> for se3<T> {
    open spec fn obeys_mul_spec() -> bool {
        true
    }

    open spec fn mul_req(self, rhs: T) -> bool {
        true
    }

    open spec fn mul_spec(self, rhs: T) -> Self {
        se3 { val: scale6_spec(self.val, rhs) }
    }
}

impl<T: Real> Mul<&T> for se3<T> {
    type Output = Self;

    /// Scales every component by `rhs`.
    fn mul(self, rhs: &T) -> (r: Self) {
        se3 { val: scale6(&self.val, *rhs) }
    }
}

impl<T: Real> MulSpecImpl<&T> for se3<T> {
    open spec fn obeys_mul_spec() -> bool {
        true
    }

    open spec fn mul_req(self, rhs: &T) -> bool {
        true
    }

    open spec fn mul_spec(self, rhs: &T) -> Self {
        se3 { val: scale6_spec(self.val, *rhs) }
    }
}

impl<T: Real> Add for se3<T> {
    type Output = Self;

    /// Adds component by component.
    fn add(self, rhs: Self) -> (r: Self) {
        se3 { val: add6(&self.val, &rhs.val) }
    }
}

impl<T: Real> AddSpecImpl for se3<T> {
    open spec fn obeys_add_spec() -> bool {
        true
    }

    open spec fn add_req(self, rhs: Self) -> bool {
        true
    }

    open spec fn add_spec(self, rhs: Self) -> Self {
        se3 { val: add6_spec(self.val, rhs.val) }
    }
}

/// The translation of the rigid motion generated by `(w, v)`, where `|w|`
/// is not below the tolerance. With `θ = |w|` and `S` the skew-symmetric
/// matrix of the axis `w / θ`, it is `(V · v) / θ` for
/// `V = I·θ + S·(1 − cos θ) + S²·(θ − sin θ)`.
pub open spec fn exp_trans_spec<T: Real>(w: Col3<T>, v: Col3<T>) -> Col3<T> {
    let theta = length_spec(w);
    let s = hat_spec(axis_spec(w));
    let vv = Mat3::identity_spec().scale_spec(theta).add_spec(
        s.scale_spec(T::one_spec().sub_spec(theta.cos_spec())),
    ).add_spec(s.mat_mul_spec(s).scale_spec(theta.sub_spec(theta.sin_spec())));
    vv.mul_vec_spec(v).div_spec(theta)
}

/// The matrix of the rigid motion generated by `(w, v)`:
///
/// * where `|w|` is below the tolerance, `[[I, v], [0, 1]]`, a pure
///   translation;
/// * else `[[R, t], [0, 1]]`, with `R` the rotation generated by `w` and `t`
///   the translation of [`exp_trans_spec`].
pub open spec fn exp_spec<T: Real>(w: Col3<T>, v: Col3<T>) -> Mat4<T> {
    if approx_zero_spec(length_spec(w)) {
        Mat4::from_blocks_spec(Mat3::identity_spec(), v)
    } else {
        Mat4::from_blocks_spec(rot::exp_spec(w), exp_trans_spec(w, v))
    }
}

impl<T: Real> Algebra for se3<T> {
    type Group = SE3<T>;

    type Vector = Vec6<T>;

    /// The rigid motion that the twist `(w, v)` generates in unit time. Its
    /// last row is `(0, 0, 0, 1)`; where the scalar's arithmetic is exact,
    /// its rotation block is orthonormal and has determinant one.
    fn exp(&self) -> (r: SE3<T>)
        ensures
            r@ == exp_spec(upper_spec(self@), lower_spec(self@)),
            r@.m30 == T::zero_spec() && r@.m31 == T::zero_spec() && r@.m32 == T::zero_spec()
                && r@.m33 == T::one_spec(),
            forall|v: spec_fn(T) -> real| #[trigger] exact(v) ==> r.valid(v),
    {
        proof {
            assert forall|v: spec_fn(T) -> real| #[trigger] exact(v) implies is_rigid(
                mat4_image(v, exp_spec(upper_spec(self@), lower_spec(self@))),
            ) by {
                lemma_exp_is_rigid(v, upper_spec(self@), lower_spec(self@));
            }
        }
        let w = upper(&self.val);
        let v = lower(&self.val);
        let theta = length(&w);
        if approx_zero(theta) {
            SE3 { val: Mat4::from_blocks(Mat3::identity(), v) }
        } else {
            let w_so3 = hat(&w.div(theta));
            let vv = Mat3::identity().scale(theta).add(w_so3.scale(T::one().sub(theta.cos()))).add(
                w_so3.mat_mul(w_so3).scale(theta.sub(theta.sin())),
            );
            let rot = (so3 { val: w }).exp();
            SE3 { val: Mat4::from_blocks(rot.val, vv.mul_vec(v).div(theta)) }
        }
    }

    /// The same six numbers, read as a twist vector.
    fn vee(&self) -> (r: Vec6<T>)
        ensures
            r@ == self@,
    {
        Vec6 { val: self.val }
    }
}

} // verus!
