use crate::Group;
use crate::exact::{exact, mat3_image};
use crate::laws::{lemma_euler_is_rotation, lemma_inverse_is_rotation, lemma_product_is_rotation};
use crate::linalg::{Col3, Mat3};
use crate::matrices::is_rotation;
use crate::point::Point;
use crate::scalar::{two, two_spec, Real};
use crate::utils::{approx_zero, approx_zero_spec};
use super::{so3, AdjSO3};
use vstd::prelude::*;

verus! {

/// A rotation of three-dimensional space, held as its 3×3 matrix.
///
/// A rotation matrix is orthonormal with determinant one ([`SO3::valid`]).
/// Where the scalar's arithmetic is exact, `exp` and `from_euler_angles`
/// build such a matrix, and `inv` and `mat_mul` keep it.
/// [`SO3::new_unchecked`] and the public field take any matrix, and every
/// operation computes on what it is given.
#[derive(Clone, Debug, PartialEq)]
pub struct SO3<T> {
    pub val: Mat3<T>,
}

impl<T: Real> View for SO3<T> {
    type V = Mat3<T>;

    open spec fn view(&self) -> Mat3<T> {
        self.val
    }
}

/// The rotation with the given roll (about x), pitch (about y) and yaw
/// (about z), composed as yaw · pitch · roll:
///
/// ```text
///  cy·cp   cy·sp·sr − sy·cr   cy·sp·cr + sy·sr
///  sy·cp   sy·sp·sr + cy·cr   sy·sp·cr − cy·sr
///   −sp         cp·sr              cp·cr
/// ```
pub open spec fn euler_spec<T: Real>(roll: T, pitch: T, yaw: T) -> Mat3<T> {
    let sr = roll.sin_spec();
    let cr = roll.cos_spec();
    let sp = pitch.sin_spec();
    let cp = pitch.cos_spec();
    let sy = yaw.sin_spec();
    let cy = yaw.cos_spec();
    Mat3 {
        m00: cy.mul_spec(cp),
        m01: cy.mul_spec(sp).mul_spec(sr).sub_spec(sy.mul_spec(cr)),
        m02: cy.mul_spec(sp).mul_spec(cr).add_spec(sy.mul_spec(sr)),
        m10: sy.mul_spec(cp),
        m11: sy.mul_spec(sp).mul_spec(sr).add_spec(cy.mul_spec(cr)),
        m12: sy.mul_spec(sp).mul_spec(cr).sub_spec(cy.mul_spec(sr)),
        m20: sp.neg_spec(),
        m21: cp.mul_spec(sr),
        m22: cp.mul_spec(cr),
    }
}

/// The cosine `(trace(R) − 1) / 2` of the angle of the rotation `R`.
pub open spec fn cos_angle_spec<T: Real>(rot: Mat3<T>) -> T {
    rot.trace_spec().sub_spec(T::one_spec()).div_spec(two_spec::<T>())
}

/// The axis of a half turn `R`, scaled by π. It is read off a column of
/// `R + I`, divided by `sqrt(2·d)` where `d` is that column's diagonal entry:
/// the third column where `1 + R[2,2]` is below the tolerance, else the
/// second where `1 + R[1,1]` is, else the first.
pub open spec fn log_half_turn_spec<T: Real>(rot: Mat3<T>) -> Col3<T> {
    let one = T::one_spec();
    let d2 = one.add_spec(rot.m22);
    let d1 = one.add_spec(rot.m11);
    let d0 = one.add_spec(rot.m00);
    let axis = if approx_zero_spec(d2) {
        (Col3 { x: rot.m02, y: rot.m12, z: d2 }).div_spec(two_spec::<T>().mul_spec(d2).sqrt_spec())
    } else if approx_zero_spec(d1) {
        (Col3 { x: rot.m01, y: d1, z: rot.m21 }).div_spec(two_spec::<T>().mul_spec(d1).sqrt_spec())
    } else {
        (Col3 { x: d0, y: rot.m10, z: rot.m20 }).div_spec(two_spec::<T>().mul_spec(d0).sqrt_spec())
    };
    axis.scale_spec(T::pi_spec())
}

/// The generator of the rotation `R`. With `c = (trace(R) − 1) / 2`:
///
/// * where `1 <= c`, the zero vector;
/// * where `c <= −1`, the half turn of [`log_half_turn_spec`];
/// * else, with `θ = acos c` and `A = (R − Rᵗ)·(θ / 2 / sin θ)`, the vector
///   `(A[2,1], A[0,2], A[1,0])`.
pub open spec fn log_spec<T: Real>(rot: Mat3<T>) -> Col3<T> {
    let one = T::one_spec();
    let c = cos_angle_spec(rot);
    if one.le_spec(c) {
        Col3::zeros_spec()
    } else if c.le_spec(one.neg_spec()) {
        log_half_turn_spec(rot)
    } else {
        let theta = c.acos_spec();
        let a = rot.sub_spec(rot.transpose_spec()).scale_spec(
            theta.div_spec(two_spec::<T>()).div_spec(theta.sin_spec()),
        );
        Col3 { x: a.m21, y: a.m02, z: a.m10 }
    }
}

impl<T: Real> SO3<T> {
    /// The matrix stands for a rotation, under the valuation `v`: a real
    /// matrix with orthonormal columns and determinant one.
    pub open spec fn valid(&self, v: spec_fn(T) -> real) -> bool {
        is_rotation(mat3_image(v, self@))
    }

    /// Takes the first nine items of `val`, listed column by column, as the
    /// matrix of a rotation; `val` holds at least nine. Nothing checks that
    /// the matrix is orthonormal with determinant one: that is the caller's
    /// part.
    pub fn new_unchecked(val: &[T]) -> (r: Self)
        requires
            val@.len() >= 9,
        ensures
            r@ == Mat3::from_column_seq(val@),
    {
        SO3 { val: Mat3::from_column_slice(val) }
    }

    /// The rotation with the given Euler angles, in radians. Where the
    /// scalar's arithmetic is exact, the matrix is orthonormal and has
    /// determinant one.
    pub fn from_euler_angles(roll: T, pitch: T, yaw: T) -> (r: Self)
        ensures
            r@ == euler_spec(roll, pitch, yaw),
            forall|v: spec_fn(T) -> real| #[trigger] exact(v) ==> r.valid(v),
    {
        proof {
            assert forall|v: spec_fn(T) -> real| #[trigger] exact(v) implies is_rotation(
                mat3_image(v, euler_spec(roll, pitch, yaw)),
            ) by {
                lemma_euler_is_rotation(v, roll, pitch, yaw);
            }
        }
        let sr = roll.sin();
        let cr = roll.cos();
        let sp = pitch.sin();
        let cp = pitch.cos();
        let sy = yaw.sin();
        let cy = yaw.cos();
        let val = Mat3::new(
            cy.mul(cp),
            cy.mul(sp).mul(sr).sub(sy.mul(cr)),
            cy.mul(sp).mul(cr).add(sy.mul(sr)),
            sy.mul(cp),
            sy.mul(sp).mul(sr).add(cy.mul(cr)),
            sy.mul(sp).mul(cr).sub(cy.mul(sr)),
            sp.neg(),
            cp.mul(sr),
            cp.mul(cr),
        );
        SO3 { val }
    }

    /// The axis of a half turn, scaled by π.
    fn log_half_turn(rot: &Mat3<T>) -> (r: Col3<T>)
        ensures
            r == log_half_turn_spec(*rot),
    {
        let one = T::one();
        let d2 = one.add(rot.m22);
        let d1 = one.add(rot.m11);
        let d0 = one.add(rot.m00);
        let axis = if approx_zero(d2) {
            Col3::new(rot.m02, rot.m12, d2).div(two::<T>().mul(d2).sqrt())
        } else if approx_zero(d1) {
            Col3::new(rot.m01, d1, rot.m21).div(two::<T>().mul(d1).sqrt())
        } else {
            Col3::new(d0, rot.m10, rot.m20).div(two::<T>().mul(d0).sqrt())
        };
        axis.scale(T::pi())
    }
}

impl<T: Real> Group for SO3<T> {
    type Algebra = so3<T>;

    type Adjoint = AdjSO3<T>;

    type Point = Point<T>;

    /// The generator whose exponential is the rotation: its axis, scaled by
    /// its angle.
    fn log(&self) -> (r: so3<T>)
        ensures
            r@ == log_spec(self@),
    {
        let rot = self.val;
        let one = T::one();
        let cos = rot.trace().sub(one).div(two::<T>());
        if one.le(cos) {
            so3 { val: Col3::zeros() }
        } else if cos.le(one.neg()) {
            so3 { val: Self::log_half_turn(&rot) }
        } else {
            let theta = cos.acos();
            let a = rot.sub(rot.transpose()).scale(theta.div(two::<T>()).div(theta.sin()));
            so3 { val: Col3::new(a.m21, a.m02, a.m10) }
        }
    }

    /// The adjoint, which has the matrix of the rotation itself.
    fn adjoint(&self) -> (r: AdjSO3<T>)
        ensures
            r@ == self@,
    {
        AdjSO3 { val: self.val }
    }

    /// The inverse rotation: the transpose of the matrix. Where the scalar's
    /// arithmetic is exact, the inverse of a rotation is a rotation.
    fn inv(&self) -> (r: Self)
        ensures
            r@ == self@.transpose_spec(),
            forall|v: spec_fn(T) -> real| #[trigger] exact(v) && self.valid(v) ==> r.valid(v),
    {
        proof {
            assert forall|v: spec_fn(T) -> real|
                #[trigger] exact(v) && is_rotation(mat3_image(v, self@)) implies is_rotation(
                mat3_image(v, self@.transpose_spec()),
            ) by {
                lemma_inverse_is_rotation(v, self@);
            }
        }
        SO3 { val: self.val.transpose() }
    }

    /// The rotation `self · other`: `other` first, then `self`. Where the
    /// scalar's arithmetic is exact, the product of rotations is a rotation.
    fn mat_mul(&self, other: &Self) -> (r: Self)
        ensures
            r@ == self@.mat_mul_spec(other@),
            forall|v: spec_fn(T) -> real|
                #[trigger] exact(v) && self.valid(v) && other.valid(v) ==> r.valid(v),
    {
        proof {
            assert forall|v: spec_fn(T) -> real|
                #[trigger] exact(v) && is_rotation(mat3_image(v, self@)) && is_rotation(
                    mat3_image(v, other@),
                ) implies is_rotation(mat3_image(v, self@.mat_mul_spec(other@))) by {
                lemma_product_is_rotation(v, self@, other@);
            }
        }
        SO3 { val: self.val.mat_mul(other.val) }
    }

    /// The point `R · p`.
    fn act(&self, other: &Point<T>) -> (r: Point<T>)
        ensures
            r@ == self@.mul_vec_spec(other@),
    {
        Point { val: self.val.mul_vec(other.val) }
    }
}

} // verus!
