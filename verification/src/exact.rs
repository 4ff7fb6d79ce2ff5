//! Scalars whose arithmetic is exact, and the real matrices they stand for.
//!
//! The contracts of the library say which expression over the scalar's own
//! operations a result is. What such an expression is worth as a number
//! depends on the scalar: floating point rounds, and the laws of rotations
//! then hold only approximately. This module names the ideal case. A
//! valuation sends each scalar to the real number it stands for; it is
//! [`exact`] where every operation of the scalar yields the scalar that
//! stands for the true result. The laws in [`crate::laws`] are proved of
//! every scalar and valuation of which that holds.

use crate::linalg::{Col3, Mat3, Mat4};
use crate::matrices::{apply3, product3, product4};
use crate::scalar::Real;
use vstd::prelude::*;

verus! {

/// The operations of the scalar `T` compute in the real numbers, as seen
/// through the valuation `v`:
///
/// * zero and one stand for 0 and 1, and the tolerance for a positive number;
/// * sum, difference, product and negation are exact, and so is a quotient
///   whose divisor is not zero;
/// * the square root of a scalar that is not negative is the root that is
///   not negative;
/// * the comparisons agree with the order of the real numbers;
/// * sine, cosine, arc cosine and tangent yield the same number for scalars
///   that stand for the same number ([`trig_functions`]), and they are
///   related as the functions of those names are ([`trig_relations`]).
pub open spec fn exact<T: Real>(v: spec_fn(T) -> real) -> bool {
    &&& v(T::zero_spec()) == 0real
    &&& v(T::one_spec()) == 1real
    &&& v(T::epsilon_spec()) > 0real
    &&& forall|a: T, b: T| v(#[trigger] a.add_spec(b)) == v(a) + v(b)
    &&& forall|a: T, b: T| v(#[trigger] a.sub_spec(b)) == v(a) - v(b)
    &&& forall|a: T, b: T| v(#[trigger] a.mul_spec(b)) == v(a) * v(b)
    &&& forall|a: T, b: T| v(b) != 0real ==> v(#[trigger] a.div_spec(b)) * v(b) == v(a)
    &&& forall|a: T| v(#[trigger] a.neg_spec()) == -v(a)
    &&& forall|a: T|
        v(a) >= 0real ==> v(#[trigger] a.sqrt_spec()) >= 0real && v(a.sqrt_spec()) * v(
            a.sqrt_spec(),
        ) == v(a)
    &&& forall|a: T, b: T| #[trigger] a.lt_spec(b) == (v(a) < v(b))
    &&& forall|a: T, b: T| #[trigger] a.le_spec(b) == (v(a) <= v(b))
    &&& trig_functions(v)
    &&& trig_relations(v)
}

/// Sine, cosine, arc cosine and tangent depend only on the number that
/// their argument stands for.
pub open spec fn trig_functions<T: Real>(v: spec_fn(T) -> real) -> bool {
    &&& forall|a: T, b: T|
        v(a) == v(b) ==> v(#[trigger] a.sin_spec()) == v(#[trigger] b.sin_spec())
    &&& forall|a: T, b: T|
        v(a) == v(b) ==> v(#[trigger] a.cos_spec()) == v(#[trigger] b.cos_spec())
    &&& forall|a: T, b: T|
        v(a) == v(b) ==> v(#[trigger] a.acos_spec()) == v(#[trigger] b.acos_spec())
    &&& forall|a: T, b: T|
        v(a) == v(b) ==> v(#[trigger] a.tan_spec()) == v(#[trigger] b.tan_spec())
}

/// What the laws use of trigonometry, with `π` the number that the scalar's
/// circle constant stands for:
///
/// * `sin² a + cos² a = 1`;
/// * `−1 < cos a < 1` for `0 < a < π`;
/// * `acos(cos a) = a` for `0 ≤ a ≤ π`;
/// * `tan(a/2) · sin a = 1 − cos a` for `0 < a < π`.
pub open spec fn trig_relations<T: Real>(v: spec_fn(T) -> real) -> bool {
    &&& forall|a: T|
        #![trigger a.sin_spec()]
        #![trigger a.cos_spec()]
        v(a.sin_spec()) * v(a.sin_spec()) + v(a.cos_spec()) * v(a.cos_spec()) == 1real
    &&& forall|a: T|
        0real < v(a) < v(T::pi_spec()) ==> -1real < v(#[trigger] a.cos_spec()) < 1real
    &&& forall|a: T|
        0real <= v(a) <= v(T::pi_spec()) ==> v(#[trigger] a.cos_spec().acos_spec()) == v(a)
    &&& forall|a: T, h: T|
        0real < v(a) < v(T::pi_spec()) && v(h) * 2real == v(a) ==> v(#[trigger] h.tan_spec())
            * v(#[trigger] a.sin_spec()) == 1real - v(a.cos_spec())
}

/// The real column that `c` stands for.
pub open spec fn col3_image<T: Real>(v: spec_fn(T) -> real, c: Col3<T>) -> Col3<real> {
    Col3 { x: v(c.x), y: v(c.y), z: v(c.z) }
}

/// The real matrix that `m` stands for.
pub open spec fn mat3_image<T: Real>(v: spec_fn(T) -> real, m: Mat3<T>) -> Mat3<real> {
    Mat3 {
        m00: v(m.m00),
        m01: v(m.m01),
        m02: v(m.m02),
        m10: v(m.m10),
        m11: v(m.m11),
        m12: v(m.m12),
        m20: v(m.m20),
        m21: v(m.m21),
        m22: v(m.m22),
    }
}

/// The real matrix that `m` stands for.
pub open spec fn mat4_image<T: Real>(v: spec_fn(T) -> real, m: Mat4<T>) -> Mat4<real> {
    Mat4 {
        m00: v(m.m00),
        m01: v(m.m01),
        m02: v(m.m02),
        m03: v(m.m03),
        m10: v(m.m10),
        m11: v(m.m11),
        m12: v(m.m12),
        m13: v(m.m13),
        m20: v(m.m20),
        m21: v(m.m21),
        m22: v(m.m22),
        m23: v(m.m23),
        m30: v(m.m30),
        m31: v(m.m31),
        m32: v(m.m32),
        m33: v(m.m33),
    }
}

/// The real numbers that the items of `s` stand for.
pub open spec fn seq_image<T: Real>(v: spec_fn(T) -> real, s: Seq<T>) -> Seq<real> {
    Seq::new(s.len(), |i: int| v(s[i]))
}

/// Under an exact valuation the product of two matrices stands for the
/// product of the real matrices.
pub proof fn lemma_mat_mul_image<T: Real>(v: spec_fn(T) -> real, a: Mat3<T>, b: Mat3<T>)
    requires
        exact(v),
    ensures
        mat3_image(v, a.mat_mul_spec(b)) == product3(mat3_image(v, a), mat3_image(v, b)),
{
}

/// Under an exact valuation the product of a matrix and a column stands for
/// the product of the real matrix and the real column.
pub proof fn lemma_mul_vec_image<T: Real>(v: spec_fn(T) -> real, a: Mat3<T>, u: Col3<T>)
    requires
        exact(v),
    ensures
        col3_image(v, a.mul_vec_spec(u)) == apply3(mat3_image(v, a), col3_image(v, u)),
{
}

/// Under an exact valuation the product of two 4×4 matrices stands for the
/// product of the real matrices.
pub proof fn lemma_mat4_mul_image<T: Real>(v: spec_fn(T) -> real, a: Mat4<T>, b: Mat4<T>)
    requires
        exact(v),
    ensures
        mat4_image(v, a.mat_mul_spec(b)) == product4(mat4_image(v, a), mat4_image(v, b)),
{
}

} // verus!
