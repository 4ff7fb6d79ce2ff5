//! Laws of the rotation group.

use crate::determinant::{
    lemma_product_of_rotations, lemma_rotation_rows, lemma_transpose_of_rotation,
};
use crate::exact::{col3_image, exact, lemma_mat_mul_image, lemma_mul_vec_image, mat3_image};
use crate::linalg::{Col3, Mat3};
use crate::matrices::{
    identity3, is_rotation, lemma_apply_product, lemma_product_associative,
    lemma_turns_are_rotations, product3, skew3, turn_x, turn_y, turn_z,
};
use crate::ring::{
    lemma_cancel, lemma_comm, lemma_component_bound, lemma_dist3, lemma_mul_eq, lemma_mul_one,
    lemma_mul_zero, lemma_neg_mul, lemma_square_below_one, lemma_square_nonneg, lemma_square_prod,
    lemma_square_zero,
};
use crate::rodrigues::{
    axis_angle_matrix, lemma_rodrigues_entries, lemma_rodrigues_rotation, lemma_unit_sum, rodrigues,
    unit,
};
use crate::rot;
use crate::rot::cos_angle_spec;
use crate::scalar::{two_spec, Real};
use crate::utils::{approx_zero_spec, axis_spec, hat_spec, length_spec};
use vstd::prelude::*;

verus! {

/// A vector that stands for the zero vector has a length below the
/// tolerance.
pub proof fn lemma_zero_is_approx_zero<T: Real>(v: spec_fn(T) -> real, w: Col3<T>)
    requires
        exact(v),
        col3_image(v, w) == (Col3 { x: 0real, y: 0real, z: 0real }),
    ensures
        approx_zero_spec(length_spec(w)),
{
    let sum = w.x.mul_spec(w.x).add_spec(w.y.mul_spec(w.y)).add_spec(w.z.mul_spec(w.z));
    assert(v(sum) == 0real);
    lemma_square_zero(v(sum.sqrt_spec()));
}

/// The exponential of the zero generator is the identity rotation.
pub proof fn lemma_exp_zero<T: Real>(v: spec_fn(T) -> real, w: Col3<T>)
    requires
        exact(v),
        col3_image(v, w) == (Col3 { x: 0real, y: 0real, z: 0real }),
    ensures
        rot::exp_spec(w) == Mat3::<T>::identity_spec(),
{
    lemma_zero_is_approx_zero(v, w);
}

/// The identity rotation leaves every point where it is.
pub proof fn lemma_identity_rotation_act<T: Real>(v: spec_fn(T) -> real, p: Col3<T>)
    requires
        exact(v),
    ensures
        col3_image(v, Mat3::<T>::identity_spec().mul_vec_spec(p)) == col3_image(v, p),
{
}

/// The length of a vector, squared, is the sum of the squares of its
/// components; the length is not negative.
pub proof fn lemma_length_image<T: Real>(v: spec_fn(T) -> real, w: Col3<T>)
    requires
        exact(v),
    ensures
        v(length_spec(w)) >= 0real,
        v(length_spec(w)) * v(length_spec(w)) == v(w.x) * v(w.x) + v(w.y) * v(w.y) + v(w.z) * v(
            w.z,
        ),
{
    let sum = w.x.mul_spec(w.x).add_spec(w.y.mul_spec(w.y)).add_spec(w.z.mul_spec(w.z));
    lemma_square_nonneg(v(w.x));
    lemma_square_nonneg(v(w.y));
    lemma_square_nonneg(v(w.z));
    assert(v(sum) == v(w.x) * v(w.x) + v(w.y) * v(w.y) + v(w.z) * v(w.z));
}

/// The real direction of a vector whose length is not below the tolerance
/// is a unit vector.
pub proof fn lemma_axis_unit<T: Real>(v: spec_fn(T) -> real, w: Col3<T>)
    requires
        exact(v),
        !approx_zero_spec(length_spec(w)),
    ensures
        unit(col3_image(v, axis_spec(w))),
        v(length_spec(w)) > 0real,
        v(axis_spec(w).x) * v(length_spec(w)) == v(w.x),
        v(axis_spec(w).y) * v(length_spec(w)) == v(w.y),
        v(axis_spec(w).z) * v(length_spec(w)) == v(w.z),
        v(length_spec(w)) * v(length_spec(w)) == v(w.x) * v(w.x) + v(w.y) * v(w.y) + v(w.z) * v(
            w.z,
        ),
{
    let t = v(length_spec(w));
    let a = col3_image(v, axis_spec(w));
    lemma_length_image(v, w);
    assert(t > 0real);
    assert(a.x * t == v(w.x));
    assert(a.y * t == v(w.y));
    assert(a.z * t == v(w.z));
    assert((a.x * a.x) * (t * t) == v(w.x) * v(w.x)) by {
        lemma_square_prod(a.x, t);
    }
    assert((a.y * a.y) * (t * t) == v(w.y) * v(w.y)) by {
        lemma_square_prod(a.y, t);
    }
    assert((a.z * a.z) * (t * t) == v(w.z) * v(w.z)) by {
        lemma_square_prod(a.z, t);
    }
    lemma_dist3(a.x * a.x, a.y * a.y, a.z * a.z, t * t);
    if t * t == 0real {
        lemma_square_zero(t);
    }
    lemma_cancel(a.x * a.x + a.y * a.y + a.z * a.z, t * t);
}

/// The exponential of a generator is a rotation: its matrix is orthonormal
/// and has determinant one.
pub proof fn lemma_exp_is_rotation<T: Real>(v: spec_fn(T) -> real, w: Col3<T>)
    requires
        exact(v),
    ensures
        is_rotation(mat3_image(v, rot::exp_spec(w))),
{
    let theta = length_spec(w);
    if approx_zero_spec(theta) {
        assert(mat3_image(v, rot::exp_spec(w)) == identity3());
    } else {
        let a = col3_image(v, axis_spec(w));
        lemma_axis_unit(v, w);
        let m = hat_spec(axis_spec(w));
        assert(mat3_image(v, m) == skew3(a));
        lemma_mat_mul_image(v, m, m);
        assert(mat3_image(v, rot::exp_spec(w)) == rodrigues(
            a,
            v(theta.sin_spec()),
            v(theta.cos_spec()),
        ));
        lemma_rodrigues_rotation(a, v(theta.sin_spec()), v(theta.cos_spec()));
    }
}

/// The rotation with given Euler angles is the product yaw · pitch · roll:
/// the roll about the x axis first, then the pitch about the y axis, then
/// the yaw about the z axis.
pub proof fn lemma_euler_composition<T: Real>(v: spec_fn(T) -> real, roll: T, pitch: T, yaw: T)
    requires
        exact(v),
    ensures
        mat3_image(v, rot::euler_spec(roll, pitch, yaw)) == product3(
            product3(
                turn_z(v(yaw.sin_spec()), v(yaw.cos_spec())),
                turn_y(v(pitch.sin_spec()), v(pitch.cos_spec())),
            ),
            turn_x(v(roll.sin_spec()), v(roll.cos_spec())),
        ),
        is_rotation(turn_z(v(yaw.sin_spec()), v(yaw.cos_spec()))),
        is_rotation(turn_y(v(pitch.sin_spec()), v(pitch.cos_spec()))),
        is_rotation(turn_x(v(roll.sin_spec()), v(roll.cos_spec()))),
{
    let sr = v(roll.sin_spec());
    let cr = v(roll.cos_spec());
    let sp = v(pitch.sin_spec());
    let cp = v(pitch.cos_spec());
    let sy = v(yaw.sin_spec());
    let cy = v(yaw.cos_spec());
    lemma_turns_are_rotations(sr, cr);
    lemma_turns_are_rotations(sp, cp);
    lemma_turns_are_rotations(sy, cy);
    let zy = product3(turn_z(sy, cy), turn_y(sp, cp));
    lemma_mul_zero(cy);
    lemma_mul_zero(sy);
    lemma_mul_zero(-sy);
    lemma_mul_zero(cp);
    lemma_mul_zero(sp);
    lemma_mul_zero(-sp);
    lemma_mul_one(-sy);
    lemma_mul_one(cy);
    lemma_mul_one(-sp);
    lemma_mul_one(cp);
    lemma_neg_mul(sy, sp);
    assert(zy.m00 == cy * cp && zy.m01 == -sy && zy.m02 == cy * sp);
    assert(zy.m10 == sy * cp && zy.m11 == cy && zy.m12 == sy * sp);
    assert(zy.m20 == -sp && zy.m21 == 0real && zy.m22 == cp);
    let all = product3(zy, turn_x(sr, cr));
    lemma_mul_zero(cr);
    lemma_mul_zero(sr);
    lemma_mul_zero(-sr);
    lemma_mul_zero(cy * cp);
    lemma_mul_zero(sy * cp);
    lemma_mul_zero(cy * sp);
    lemma_mul_zero(sy * sp);
    lemma_mul_one(cy * cp);
    lemma_mul_one(sy * cp);
    lemma_neg_mul(sy, cr);
    lemma_neg_mul(cy, sr);
    lemma_neg_mul(sy, sr);
    lemma_neg_mul(cp, sr);
    lemma_neg_mul(sp, sr);
    lemma_neg_mul(sp, cr);
    lemma_neg_mul(-sy, sr);
    let e = mat3_image(v, rot::euler_spec(roll, pitch, yaw));
    assert(all.m00 == e.m00 && all.m01 == e.m01 && all.m02 == e.m02);
    assert(all.m10 == e.m10 && all.m11 == e.m11 && all.m12 == e.m12);
    assert(all.m20 == e.m20 && all.m21 == e.m21 && all.m22 == e.m22);
}

/// A rotation times its inverse is the identity, on either side.
pub proof fn lemma_rotation_inverse<T: Real>(v: spec_fn(T) -> real, g: Mat3<T>)
    requires
        exact(v),
        is_rotation(mat3_image(v, g)),
    ensures
        mat3_image(v, g.mat_mul_spec(g.transpose_spec())) == identity3(),
        mat3_image(v, g.transpose_spec().mat_mul_spec(g)) == identity3(),
{
    assert(mat3_image(v, g.transpose_spec()) == mat3_image(v, g).transpose_spec());
    lemma_rotation_rows(mat3_image(v, g));
}

/// The inverse of a rotation is a rotation.
pub proof fn lemma_inverse_is_rotation<T: Real>(v: spec_fn(T) -> real, g: Mat3<T>)
    requires
        exact(v),
        is_rotation(mat3_image(v, g)),
    ensures
        is_rotation(mat3_image(v, g.transpose_spec())),
{
    assert(mat3_image(v, g.transpose_spec()) == mat3_image(v, g).transpose_spec());
    lemma_transpose_of_rotation(mat3_image(v, g));
}

/// The rotation that `exp` yields, times its inverse, is the identity.
pub proof fn lemma_exp_times_inverse<T: Real>(v: spec_fn(T) -> real, w: Col3<T>)
    requires
        exact(v),
    ensures
        ({
            let g = rot::exp_spec(w);
            mat3_image(v, g.mat_mul_spec(g.transpose_spec())) == identity3()
        }),
{
    lemma_exp_is_rotation(v, w);
    lemma_rotation_inverse(v, rot::exp_spec(w));
}

/// One component of the logarithm: `(2·(s·x))·f = x·t` where `f·s = h` and
/// `h·2 = t`.
proof fn lemma_log_component(s: real, x: real, f: real, h: real, t: real)
    requires
        f * s == h,
        h * 2real == t,
    ensures
        (2real * (s * x)) * f == x * t,
{
    assert((2real * (s * x)) * f == (2real * x) * (f * s)) by (nonlinear_arith);
    assert((2real * x) * h == x * (h * 2real)) by (nonlinear_arith);
    lemma_mul_eq(f * s, h, 2real * x);
    lemma_comm(f * s, 2real * x);
    lemma_comm(h, 2real * x);
    lemma_mul_eq(h * 2real, t, x);
    lemma_comm(h * 2real, x);
    lemma_comm(t, x);
}

/// The logarithm undoes the exponential. For a rotation vector `w` of
/// length below π, `log(exp(w))` stands for `w` where the length of `w` is
/// not below the tolerance; where it is, `log(exp(w))` is the zero vector.
/// Either way each component of `log(exp(w))` is nearer to that of `w` than
/// the tolerance.
pub proof fn lemma_log_exp<T: Real>(v: spec_fn(T) -> real, w: Col3<T>)
    requires
        exact(v),
        v(length_spec(w)) < v(T::pi_spec()),
    ensures
        !approx_zero_spec(length_spec(w)) ==> col3_image(v, rot::log_spec(rot::exp_spec(w)))
            == col3_image(v, w),
        approx_zero_spec(length_spec(w)) ==> rot::log_spec(rot::exp_spec(w)) == Col3::<
            T,
        >::zeros_spec(),
        ({
            let back = col3_image(v, rot::log_spec(rot::exp_spec(w)));
            let e = v(T::epsilon_spec());
            &&& -e < back.x - v(w.x) < e
            &&& -e < back.y - v(w.y) < e
            &&& -e < back.z - v(w.z) < e
        }),
{
    let theta = length_spec(w);
    let t = v(theta);
    let r = rot::exp_spec(w);
    let one = T::one_spec();
    let two = two_spec::<T>();
    let cos = cos_angle_spec(r);
    assert(v(two) == 2real);
    if approx_zero_spec(theta) {
        assert(r == Mat3::<T>::identity_spec());
        assert(v(r.trace_spec()) == 3real);
        assert(v(cos) * 2real == 2real);
        assert(one.le_spec(cos));
        lemma_length_image(v, w);
        lemma_square_nonneg(v(w.x));
        lemma_square_nonneg(v(w.y));
        lemma_square_nonneg(v(w.z));
        let e = v(T::epsilon_spec());
        lemma_component_bound(v(w.x), v(w.y) * v(w.y) + v(w.z) * v(w.z), t, e);
        lemma_component_bound(v(w.y), v(w.x) * v(w.x) + v(w.z) * v(w.z), t, e);
        lemma_component_bound(v(w.z), v(w.x) * v(w.x) + v(w.y) * v(w.y), t, e);
    } else {
        let a = col3_image(v, axis_spec(w));
        let s = v(theta.sin_spec());
        let c = v(theta.cos_spec());
        let k = 1real - c;
        lemma_axis_unit(v, w);
        // The rotation matrix, entry by entry.
        let m = hat_spec(axis_spec(w));
        assert(mat3_image(v, m) == skew3(a));
        lemma_mat_mul_image(v, m, m);
        assert(mat3_image(v, r) == rodrigues(a, s, c));
        lemma_rodrigues_entries(a, s, c);
        let rm = axis_angle_matrix(a, s, c);
        assert(mat3_image(v, r) == rm);
        // Its trace is 1 + 2·cos θ, so the cosine comes back.
        lemma_unit_sum(a.x, a.y, a.z, k);
        assert(v(r.trace_spec()) == 2real * c + 1real);
        assert(v(cos) * 2real == 2real * c);
        assert(v(cos) == c);
        assert(-1real < c < 1real);
        assert(!one.le_spec(cos));
        assert(!cos.le_spec(one.neg_spec()));
        // So does the angle, and with it the sine, which is not zero.
        let angle = cos.acos_spec();
        assert(v(theta.cos_spec().acos_spec()) == t);
        assert(v(angle) == t);
        assert(v(angle.sin_spec()) == s);
        lemma_square_below_one(c);
        if s == 0real {
            assert(s * s == 0real);
        }
        let factor = angle.div_spec(two).div_spec(angle.sin_spec());
        let h = v(angle.div_spec(two));
        let f = v(factor);
        assert(h * 2real == t);
        assert(f * s == h);
        // R − Rᵗ holds 2·sin θ times the axis.
        let d = r.sub_spec(r.transpose_spec()).scale_spec(factor);
        lemma_comm(a.x, a.y);
        lemma_comm(a.y, a.z);
        lemma_comm(a.z, a.x);
        assert(v(d.m21) == (2real * (s * a.x)) * f);
        assert(v(d.m02) == (2real * (s * a.y)) * f);
        assert(v(d.m10) == (2real * (s * a.z)) * f);
        lemma_log_component(s, a.x, f, h, t);
        lemma_log_component(s, a.y, f, h, t);
        lemma_log_component(s, a.z, f, h, t);
    }
}

/// The product of rotations is associative.
pub proof fn lemma_rotation_product_associative<T: Real>(
    v: spec_fn(T) -> real,
    a: Mat3<T>,
    b: Mat3<T>,
    c: Mat3<T>,
)
    requires
        exact(v),
    ensures
        mat3_image(v, a.mat_mul_spec(b).mat_mul_spec(c)) == mat3_image(
            v,
            a.mat_mul_spec(b.mat_mul_spec(c)),
        ),
{
    lemma_mat_mul_image(v, a, b);
    lemma_mat_mul_image(v, a.mat_mul_spec(b), c);
    lemma_mat_mul_image(v, b, c);
    lemma_mat_mul_image(v, a, b.mat_mul_spec(c));
    lemma_product_associative(mat3_image(v, a), mat3_image(v, b), mat3_image(v, c));
}

/// A product of rotations moves a point as its factors do in turn, the
/// right one first.
pub proof fn lemma_rotation_product_act<T: Real>(
    v: spec_fn(T) -> real,
    a: Mat3<T>,
    b: Mat3<T>,
    p: Col3<T>,
)
    requires
        exact(v),
    ensures
        col3_image(v, a.mat_mul_spec(b).mul_vec_spec(p)) == col3_image(
            v,
            a.mul_vec_spec(b.mul_vec_spec(p)),
        ),
{
    lemma_mat_mul_image(v, a, b);
    lemma_mul_vec_image(v, a.mat_mul_spec(b), p);
    lemma_mul_vec_image(v, b, p);
    lemma_mul_vec_image(v, a, b.mul_vec_spec(p));
    lemma_apply_product(mat3_image(v, a), mat3_image(v, b), col3_image(v, p));
}

/// The product of two rotations is a rotation.
pub proof fn lemma_product_is_rotation<T: Real>(v: spec_fn(T) -> real, a: Mat3<T>, b: Mat3<T>)
    requires
        exact(v),
        is_rotation(mat3_image(v, a)),
        is_rotation(mat3_image(v, b)),
    ensures
        is_rotation(mat3_image(v, a.mat_mul_spec(b))),
{
    lemma_mat_mul_image(v, a, b);
    lemma_product_of_rotations(mat3_image(v, a), mat3_image(v, b));
}

/// The matrix with given Euler angles is a rotation.
pub proof fn lemma_euler_is_rotation<T: Real>(v: spec_fn(T) -> real, roll: T, pitch: T, yaw: T)
    requires
        exact(v),
    ensures
        is_rotation(mat3_image(v, rot::euler_spec(roll, pitch, yaw))),
{
    let x = turn_x(v(roll.sin_spec()), v(roll.cos_spec()));
    let y = turn_y(v(pitch.sin_spec()), v(pitch.cos_spec()));
    let z = turn_z(v(yaw.sin_spec()), v(yaw.cos_spec()));
    lemma_euler_composition(v, roll, pitch, yaw);
    lemma_product_of_rotations(z, y);
    lemma_product_of_rotations(product3(z, y), x);
}

} // verus!
