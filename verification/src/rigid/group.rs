use crate::{rot, Group};
use crate::exact::{exact, mat3_image, mat4_image};
use crate::laws::{lemma_blocks_are_rigid, lemma_product_is_rigid, lemma_rigid_inverse};
use crate::linalg::{block6, block6_spec, stack, stack_spec, Col3, Mat3, Mat4};
use crate::matrices::{is_rigid, is_rotation};
use crate::point::Point;
use crate::rot::SO3;
use crate::scalar::{two, two_spec, Real};
use crate::utils::{
    approx_zero_vec, approx_zero_vec_spec, axis_angle, axis_spec, hat, hat_spec, length_spec,
};
use super::{se3, AdjSE3};
use vstd::prelude::*;

verus! {

/// A rigid motion of three-dimensional space, held as its 4×4 homogeneous
/// matrix `[[R, t], [0, 1]]`: a rotation `R`, then a translation `t`.
///
/// The matrix of a rigid motion has a rotation for its upper left block and
/// `(0, 0, 0, 1)` for its last row ([`SE3::valid`]). Where the scalar's
/// arithmetic is exact, `exp` builds such a matrix, `new` and `from_rp` do
/// so from a rotation, and `inv` and `mat_mul` keep it. The public field
/// takes any matrix, and every operation computes on what it is given.
#[derive(Clone, Debug, PartialEq)]
pub struct SE3<T> {
    pub val: Mat4<T>,
}

impl<T: Real> View for SE3<T> {
    type V = Mat4<T>;

    open spec fn view(&self) -> Mat4<T> {
        self.val
    }
}

/// The translation part of the generator of the motion with rotation
/// generator `w` and translation `p`, where `|w|` is not below the
/// tolerance. With `θ = |w|` and `S` the skew-symmetric matrix of the axis
/// `w / θ`, it is `(G · p)·θ` for
/// `G = I/θ − S/2 + S²·(1/θ − 1/tan(θ/2)/2)`.
pub open spec fn log_trans_spec<T: Real>(w: Col3<T>, p: Col3<T>) -> Col3<T> {
    let one = T::one_spec();
    let two = two_spec::<T>();
    let theta = length_spec(w);
    let s = hat_spec(axis_spec(w));
    let a = Mat3::identity_spec().div_spec(theta);
    let b = s.div_spec(two);
    let c = s.mat_mul_spec(s).scale_spec(
        one.div_spec(theta).sub_spec(one.div_spec(theta.div_spec(two).tan_spec()).div_spec(two)),
    );
    a.sub_spec(b).add_spec(c).mul_vec_spec(p).scale_spec(theta)
}

/// The generator `(w, v)` of the motion `m = [[R, p], [0, 1]]`, as six
/// scalars. With `w` the generator of the rotation `R`:
///
/// * where `|w|` is below the tolerance, `(0, p)`, a pure translation;
/// * else `(w, v)` with `v` the translation part of [`log_trans_spec`].
pub open spec fn log_spec<T: Real>(m: Mat4<T>) -> Seq<T> {
    let p = m.trans_spec();
    let w = rot::log_spec(m.rot_spec());
    if approx_zero_vec_spec(w) {
        stack_spec(Col3::zeros_spec(), p)
    } else {
        stack_spec(w, log_trans_spec(w, p))
    }
}

/// The matrix of the inverse of the motion `m = [[R, p], [0, 1]]`:
/// `[[Rᵗ, (−Rᵗ)·p], [0, 1]]`.
pub open spec fn inv_spec<T: Real>(m: Mat4<T>) -> Mat4<T> {
    let rt = m.rot_spec().transpose_spec();
    Mat4::from_blocks_spec(rt, rt.neg_spec().mul_vec_spec(m.trans_spec()))
}

/// The 6×6 matrix `[[R, 0], [skew(p)·R, R]]` of the adjoint of the motion
/// `m = [[R, p], [0, 1]]`, listed column by column.
pub open spec fn adjoint_spec<T: Real>(m: Mat4<T>) -> Seq<T> {
    let r = m.rot_spec();
    let z = T::zero_spec();
    let zeros = Mat3 { m00: z, m01: z, m02: z, m10: z, m11: z, m12: z, m20: z, m21: z, m22: z };
    block6_spec(r, zeros, hat_spec(m.trans_spec()).mat_mul_spec(r), r)
}

impl<T: Real> SE3<T> {
    /// The matrix stands for a rigid motion, under the valuation `v`: a real
    /// matrix whose upper left block is a rotation and whose last row is
    /// `(0, 0, 0, 1)`.
    pub open spec fn valid(&self, v: spec_fn(T) -> real) -> bool {
        is_rigid(mat4_image(v, self@))
    }

    /// The motion that rotates by `rot` and then translates by `p`. Where
    /// the scalar's arithmetic is exact and `rot` is a rotation, it is a
    /// rigid motion.
    pub fn new(rot: &SO3<T>, p: [T; 3]) -> (r: Self)
        ensures
            r@ == Mat4::from_blocks_spec(rot@, Col3 { x: p@[0], y: p@[1], z: p@[2] }),
            forall|v: spec_fn(T) -> real| #[trigger] exact(v) && rot.valid(v) ==> r.valid(v),
    {
        Self::from_rp(&rot.val, &Col3::new(p[0], p[1], p[2]))
    }

    /// The rotation and the translation of the motion.
    pub fn rot_trans(&self) -> (r: (SO3<T>, [T; 3]))
        ensures
            r.0@ == self@.rot_spec(),
            r.1@ == self@.trans_spec().to_seq(),
    {
        let (r, p) = self.rp();
        let t = [p.x, p.y, p.z];
        assert(t@ =~= p.to_seq());
        (SO3 { val: r }, t)
    }

    /// The upper left 3×3 block and the first three entries of the last
    /// column.
    pub fn rp(&self) -> (r: (Mat3<T>, Col3<T>))
        ensures
            r.0 == self@.rot_spec(),
            r.1 == self@.trans_spec(),
    {
        (self.val.rot(), self.val.trans())
    }

    /// The motion with matrix `[[r, p], [0, 1]]`. Where the scalar's
    /// arithmetic is exact and `r` is a rotation, it is a rigid motion.
    pub fn from_rp(r: &Mat3<T>, p: &Col3<T>) -> (m: Self)
        ensures
            m@ == Mat4::from_blocks_spec(*r, *p),
            forall|v: spec_fn(T) -> real|
                #[trigger] exact(v) && is_rotation(mat3_image(v, *r)) ==> m.valid(v),
    {
        proof {
            assert forall|v: spec_fn(T) -> real|
                #[trigger] exact(v) && is_rotation(mat3_image(v, *r)) implies is_rigid(
                mat4_image(v, Mat4::from_blocks_spec(*r, *p)),
            ) by {
                lemma_blocks_are_rigid(v, *r, *p);
            }
        }
        SE3 { val: Mat4::from_blocks(*r, *p) }
    }
}

impl<T: Real> Group for SE3<T> {
    type Algebra = se3<T>;

    type Adjoint = AdjSE3<T>;

    type Point = Point<T>;

    /// The twist whose exponential is the motion.
    fn log(&self) -> (r: se3<T>)
        ensures
            r@ == log_spec(self@),
    {
        let (r, p) = self.rp();
        let w = (SO3 { val: r }).log().val;
        if approx_zero_vec(&w) {
            se3 { val: stack(Col3::zeros(), p) }
        } else {
            let one = T::one();
            let two = two::<T>();
            let (w_, theta) = axis_angle(&w);
            let w_so3 = hat(&w_);
            let a = Mat3::identity().div(theta);
            let b = w_so3.div(two);
            let c = w_so3.mat_mul(w_so3).scale(
                one.div(theta).sub(one.div(theta.div(two).tan()).div(two)),
            );
            let v = a.sub(b).add(c).mul_vec(p);
            se3 { val: stack(w, v.scale(theta)) }
        }
    }

    /// The adjoint, which carries twists from the moved frame to the fixed
    /// one.
    fn adjoint(&self) -> (r: AdjSE3<T>)
        ensures
            r@ == adjoint_spec(self@),
    {
        let (r, p) = self.rp();
        let p_so3 = hat(&p);
        let z = T::zero();
        let zeros = Mat3::new(z, z, z, z, z, z, z, z, z);
        AdjSE3 { val: block6(&r, &zeros, &p_so3.mat_mul(r), &r) }
    }

    /// The inverse motion, in closed form. Where the scalar's arithmetic is
    /// exact, the inverse of a rigid motion is a rigid motion.
    fn inv(&self) -> (r: Self)
        ensures
            r@ == inv_spec(self@),
            forall|v: spec_fn(T) -> real| #[trigger] exact(v) && self.valid(v) ==> r.valid(v),
    {
        proof {
            assert forall|v: spec_fn(T) -> real|
                #[trigger] exact(v) && is_rigid(mat4_image(v, self@)) implies is_rigid(
                mat4_image(v, inv_spec(self@)),
            ) by {
                lemma_rigid_inverse(v, self@);
            }
        }
        let (r, p) = self.rp();
        let rt = r.transpose();
        Self::from_rp(&rt, &rt.neg().mul_vec(p))
    }

    /// The motion `self · other`: `other` first, then `self`. It is the
    /// product of the two 4×4 matrices. Where the scalar's arithmetic is
    /// exact, the product of rigid motions is a rigid motion.
    fn mat_mul(&self, other: &Self) -> (r: Self)
        ensures
            r@ == self@.mat_mul_spec(other@),
            forall|v: spec_fn(T) -> real|
                #[trigger] exact(v) && self.valid(v) && other.valid(v) ==> r.valid(v),
    {
        proof {
            assert forall|v: spec_fn(T) -> real|
                #[trigger] exact(v) && is_rigid(mat4_image(v, self@)) && is_rigid(
                    mat4_image(v, other@),
                ) implies is_rigid(mat4_image(v, self@.mat_mul_spec(other@))) by {
                lemma_product_is_rigid(v, self@, other@);
            }
        }
        SE3 { val: self.val.mat_mul(other.val) }
    }

    /// The point `R · p + t`: the first three rows of the matrix times
    /// `(p, 1)`.
    fn act(&self, other: &Point<T>) -> (r: Point<T>)
        ensures
            r@ == self@.act_spec(other@),
    {
        Point { val: self.val.act(other.val) }
    }
}

} // verus!
