//! Laws of the group of rigid motions.

use crate::{rigid, rot};
use crate::determinant::{
    lemma_product_of_rotations, lemma_rotation_rows, lemma_transpose_of_rotation,
};
use crate::exact::{
    col3_image, exact, lemma_mat4_mul_image, lemma_mat_mul_image, lemma_mul_vec_image, mat3_image,
    mat4_image, seq_image,
};
use crate::linalg::{
    lower_spec, mat6_mul_vec_spec, row6_spec, stack_spec, upper_spec, Col3, Mat3, Mat4,
};
use crate::matrices::{
    apply3, identity3, identity4, is_rigid, is_rotation, last_row_fixed, lemma_apply_lin,
    lemma_apply_product, lemma_apply_scaled, lemma_product_associative, lemma_row_of_inverse,
    product3, product4, skew3, sum3,
};
use crate::ring::{
    lemma_assoc, lemma_cancel_factor, lemma_comm, lemma_minus_half, lemma_mul_eq, lemma_mul_zero,
    lemma_same_square,
};
use crate::scalar::{two_spec, Real};
use crate::screw::{
    exp_matrix, lemma_exp_matrix_terms, lemma_log_matrix_terms, lemma_log_matrix_undoes_exp_matrix,
    log_matrix,
};
use crate::utils::{approx_zero_spec, axis_spec, hat_spec, length_spec};
use super::rotation::{
    lemma_axis_unit, lemma_exp_is_rotation, lemma_length_image, lemma_log_exp,
    lemma_zero_is_approx_zero,
};
use vstd::prelude::*;

verus! {

/// The exponential of a twist without rotation is the translation by its
/// translation part; that of the zero twist is the identity motion.
pub proof fn lemma_rigid_exp_zero<T: Real>(v: spec_fn(T) -> real, w: Col3<T>, t: Col3<T>)
    requires
        exact(v),
        col3_image(v, w) == (Col3 { x: 0real, y: 0real, z: 0real }),
    ensures
        rigid::exp_spec(w, t) == Mat4::from_blocks_spec(Mat3::identity_spec(), t),
        t == Col3::<T>::zeros_spec() ==> rigid::exp_spec(w, t) == Mat4::<T>::identity_spec(),
{
    lemma_zero_is_approx_zero(v, w);
}

/// The identity motion leaves every point where it is.
pub proof fn lemma_identity_motion_act<T: Real>(v: spec_fn(T) -> real, p: Col3<T>)
    requires
        exact(v),
    ensures
        col3_image(v, Mat4::<T>::identity_spec().act_spec(p)) == col3_image(v, p),
{
}

/// The exponential of a twist is a rigid motion: its rotation block is a
/// rotation and its last row is `(0, 0, 0, 1)`.
pub proof fn lemma_exp_is_rigid<T: Real>(v: spec_fn(T) -> real, w: Col3<T>, u: Col3<T>)
    requires
        exact(v),
    ensures
        is_rigid(mat4_image(v, rigid::exp_spec(w, u))),
{
    let g = rigid::exp_spec(w, u);
    if approx_zero_spec(length_spec(w)) {
        assert(mat4_image(v, g).rot_spec() == identity3());
    } else {
        lemma_exp_is_rotation(v, w);
        assert(mat4_image(v, g).rot_spec() == mat3_image(v, rot::exp_spec(w)));
    }
}

/// A rigid motion `[[R, t], [0, 1]]` sends the point `p` to `R·p + t`.
pub proof fn lemma_rigid_act<T: Real>(v: spec_fn(T) -> real, g: Mat4<T>, p: Col3<T>)
    requires
        exact(v),
    ensures
        col3_image(v, g.act_spec(p)) == sum3(
            apply3(mat3_image(v, g.rot_spec()), col3_image(v, p)),
            col3_image(v, g.trans_spec()),
        ),
{
}

/// The product of the rigid motions `[[R₁, t₁], [0, 1]]` and
/// `[[R₂, t₂], [0, 1]]` is `[[R₁·R₂, R₁·t₂ + t₁], [0, 1]]`.
pub proof fn lemma_rigid_product<T: Real>(v: spec_fn(T) -> real, g: Mat4<T>, h: Mat4<T>)
    requires
        exact(v),
        last_row_fixed(mat4_image(v, g)),
        last_row_fixed(mat4_image(v, h)),
    ensures
        ({
            let gh = mat4_image(v, g.mat_mul_spec(h));
            &&& gh.rot_spec() == product3(
                mat3_image(v, g.rot_spec()),
                mat3_image(v, h.rot_spec()),
            )
            &&& gh.trans_spec() == sum3(
                apply3(mat3_image(v, g.rot_spec()), col3_image(v, h.trans_spec())),
                col3_image(v, g.trans_spec()),
            )
            &&& last_row_fixed(gh)
        }),
{
    lemma_mat4_mul_image(v, g, h);
}

/// A product of rigid motions moves a point as its factors do in turn, the
/// right one first.
pub proof fn lemma_rigid_product_act<T: Real>(
    v: spec_fn(T) -> real,
    g: Mat4<T>,
    h: Mat4<T>,
    p: Col3<T>,
)
    requires
        exact(v),
        last_row_fixed(mat4_image(v, g)),
        last_row_fixed(mat4_image(v, h)),
    ensures
        col3_image(v, g.mat_mul_spec(h).act_spec(p)) == col3_image(
            v,
            g.act_spec(h.act_spec(p)),
        ),
{
    let r1 = mat3_image(v, g.rot_spec());
    let r2 = mat3_image(v, h.rot_spec());
    let t1 = col3_image(v, g.trans_spec());
    let t2 = col3_image(v, h.trans_spec());
    let pp = col3_image(v, p);
    lemma_rigid_product(v, g, h);
    lemma_rigid_act(v, g.mat_mul_spec(h), p);
    lemma_rigid_act(v, h, p);
    lemma_rigid_act(v, g, h.act_spec(p));
    // R₁·(R₂·p + t₂) = (R₁·R₂)·p + R₁·t₂.
    lemma_apply_product(r1, r2, pp);
    lemma_apply_lin(r1, 1real, apply3(r2, pp), 1real, t2, 0real, t2);
}

/// The product of rigid motions is associative.
pub proof fn lemma_rigid_product_associative<T: Real>(
    v: spec_fn(T) -> real,
    g: Mat4<T>,
    h: Mat4<T>,
    k: Mat4<T>,
)
    requires
        exact(v),
        last_row_fixed(mat4_image(v, g)),
        last_row_fixed(mat4_image(v, h)),
        last_row_fixed(mat4_image(v, k)),
    ensures
        mat4_image(v, g.mat_mul_spec(h).mat_mul_spec(k)) == mat4_image(
            v,
            g.mat_mul_spec(h.mat_mul_spec(k)),
        ),
{
    let r1 = mat3_image(v, g.rot_spec());
    let r2 = mat3_image(v, h.rot_spec());
    let r3 = mat3_image(v, k.rot_spec());
    let t2 = col3_image(v, h.trans_spec());
    let t3 = col3_image(v, k.trans_spec());
    let gh = g.mat_mul_spec(h);
    let hk = h.mat_mul_spec(k);
    lemma_rigid_product(v, g, h);
    lemma_rigid_product(v, h, k);
    lemma_rigid_product(v, gh, k);
    lemma_rigid_product(v, g, hk);
    lemma_product_associative(r1, r2, r3);
    // (R₁·R₂)·t₃ + R₁·t₂ = R₁·(R₂·t₃ + t₂).
    lemma_apply_product(r1, r2, t3);
    lemma_apply_lin(r1, 1real, apply3(r2, t3), 1real, t2, 0real, t2);
    let x = mat4_image(v, gh.mat_mul_spec(k));
    let y = mat4_image(v, g.mat_mul_spec(hk));
    assert(x.rot_spec() == y.rot_spec());
    assert(x.trans_spec() == y.trans_spec());
}

/// A rigid motion times its inverse is the identity.
pub proof fn lemma_rigid_inverse<T: Real>(v: spec_fn(T) -> real, g: Mat4<T>)
    requires
        exact(v),
        is_rigid(mat4_image(v, g)),
    ensures
        is_rigid(mat4_image(v, rigid::inv_spec(g))),
        mat4_image(v, g.mat_mul_spec(rigid::inv_spec(g))) == identity4(),
{
    let r = mat3_image(v, g.rot_spec());
    let p = col3_image(v, g.trans_spec());
    let rt = g.rot_spec().transpose_spec();
    let inv = rigid::inv_spec(g);
    let a = mat4_image(v, g);
    let b = mat4_image(v, inv);
    assert(a.rot_spec() == r);
    assert(b.rot_spec() == r.transpose_spec());
    lemma_transpose_of_rotation(r);
    lemma_rotation_rows(r);
    assert(is_rigid(b));

    // The translation of the inverse is (−Rᵗ)·p.
    lemma_mul_vec_image(v, rt.neg_spec(), g.trans_spec());
    let x = Col3 {
        x: (-r.m00) * p.x + (-r.m10) * p.y + (-r.m20) * p.z,
        y: (-r.m01) * p.x + (-r.m11) * p.y + (-r.m21) * p.z,
        z: (-r.m02) * p.x + (-r.m12) * p.y + (-r.m22) * p.z,
    };
    assert(b.trans_spec() == x);

    // R·Rᵗ is the identity, entry by entry.
    let rrt = product3(r, r.transpose_spec());
    assert(rrt == identity3());
    assert(rrt.m00 == 1real && rrt.m01 == 0real && rrt.m02 == 0real);
    assert(rrt.m10 == 0real && rrt.m11 == 1real && rrt.m12 == 0real);
    assert(rrt.m20 == 0real && rrt.m21 == 0real && rrt.m22 == 1real);

    // R·((−Rᵗ)·p) is −p, row by row.
    assert(r.m00 * x.x + r.m01 * x.y + r.m02 * x.z == -p.x) by {
        lemma_row_of_inverse(Col3 { x: r.m00, y: r.m01, z: r.m02 }, r, p);
        let d0 = r.m00 * r.m00 + r.m01 * r.m01 + r.m02 * r.m02;
        let d1 = r.m00 * r.m10 + r.m01 * r.m11 + r.m02 * r.m12;
        let d2 = r.m00 * r.m20 + r.m01 * r.m21 + r.m02 * r.m22;
        assert(d0 == rrt.m00);
        assert(d1 == rrt.m01);
        assert(d2 == rrt.m02);
        assert(r.m00 * x.x + r.m01 * x.y + r.m02 * x.z == -(d0 * p.x + d1 * p.y + d2 * p.z));
        lemma_mul_eq(d0, 1real, p.x);
        lemma_mul_eq(d1, 0real, p.y);
        lemma_mul_eq(d2, 0real, p.z);
    }
    assert(r.m10 * x.x + r.m11 * x.y + r.m12 * x.z == -p.y) by {
        lemma_row_of_inverse(Col3 { x: r.m10, y: r.m11, z: r.m12 }, r, p);
        let d0 = r.m10 * r.m00 + r.m11 * r.m01 + r.m12 * r.m02;
        let d1 = r.m10 * r.m10 + r.m11 * r.m11 + r.m12 * r.m12;
        let d2 = r.m10 * r.m20 + r.m11 * r.m21 + r.m12 * r.m22;
        assert(d0 == rrt.m10);
        assert(d1 == rrt.m11);
        assert(d2 == rrt.m12);
        assert(r.m10 * x.x + r.m11 * x.y + r.m12 * x.z == -(d0 * p.x + d1 * p.y + d2 * p.z));
        lemma_mul_eq(d0, 0real, p.x);
        lemma_mul_eq(d1, 1real, p.y);
        lemma_mul_eq(d2, 0real, p.z);
    }
    assert(r.m20 * x.x + r.m21 * x.y + r.m22 * x.z == -p.z) by {
        lemma_row_of_inverse(Col3 { x: r.m20, y: r.m21, z: r.m22 }, r, p);
        let d0 = r.m20 * r.m00 + r.m21 * r.m01 + r.m22 * r.m02;
        let d1 = r.m20 * r.m10 + r.m21 * r.m11 + r.m22 * r.m12;
        let d2 = r.m20 * r.m20 + r.m21 * r.m21 + r.m22 * r.m22;
        assert(d0 == rrt.m20);
        assert(d1 == rrt.m21);
        assert(d2 == rrt.m22);
        assert(r.m20 * x.x + r.m21 * x.y + r.m22 * x.z == -(d0 * p.x + d1 * p.y + d2 * p.z));
        lemma_mul_eq(d0, 0real, p.x);
        lemma_mul_eq(d1, 0real, p.y);
        lemma_mul_eq(d2, 1real, p.z);
    }

    lemma_mat4_mul_image(v, g, inv);
    let c = product4(a, b);
    assert(c.m00 == 1real && c.m01 == 0real && c.m02 == 0real && c.m03 == 0real);
    assert(c.m10 == 0real && c.m11 == 1real && c.m12 == 0real && c.m13 == 0real);
    assert(c.m20 == 0real && c.m21 == 0real && c.m22 == 1real && c.m23 == 0real);
    assert(c.m30 == 0real && c.m31 == 0real && c.m32 == 0real && c.m33 == 1real);
}

/// The rigid motion that `exp` yields, times its inverse, is the identity.
pub proof fn lemma_rigid_exp_times_inverse<T: Real>(v: spec_fn(T) -> real, w: Col3<T>, u: Col3<T>)
    requires
        exact(v),
    ensures
        ({
            let g = rigid::exp_spec(w, u);
            mat4_image(v, g.mat_mul_spec(rigid::inv_spec(g))) == identity4()
        }),
{
    lemma_exp_is_rigid(v, w, u);
    lemma_rigid_inverse(v, rigid::exp_spec(w, u));
}

/// The translation part of the logarithm undoes that of the exponential:
/// for `w` of a length that is neither below the tolerance nor as much as π,
/// and a generator `w2` that stands for the same vector as `w`,
/// `log_trans(w2, exp_trans(w, u))` stands for `u`.
pub proof fn lemma_log_trans_exp_trans<T: Real>(
    v: spec_fn(T) -> real,
    w: Col3<T>,
    w2: Col3<T>,
    u: Col3<T>,
)
    requires
        exact(v),
        !approx_zero_spec(length_spec(w)),
        v(length_spec(w)) < v(T::pi_spec()),
        col3_image(v, w2) == col3_image(v, w),
    ensures
        !approx_zero_spec(length_spec(w2)),
        col3_image(v, rigid::log_trans_spec(w2, rigid::exp_trans_spec(w, u))) == col3_image(v, u),
{
    let theta = length_spec(w);
    let theta2 = length_spec(w2);
    let t = v(theta);
    let one = T::one_spec();
    let two = two_spec::<T>();
    let a = col3_image(v, axis_spec(w));
    let s = v(theta.sin_spec());
    let c = v(theta.cos_spec());
    let uu = col3_image(v, u);
    assert(v(two) == 2real);
    // Both generators have the same length and the same axis.
    lemma_axis_unit(v, w);
    lemma_length_image(v, w2);
    lemma_same_square(v(theta2), t);
    assert(v(theta2) == t);
    lemma_axis_unit(v, w2);
    let a2 = col3_image(v, axis_spec(w2));
    assert(a2 == a) by {
        lemma_cancel_factor(a2.x, a.x, t);
        lemma_cancel_factor(a2.y, a.y, t);
        lemma_cancel_factor(a2.z, a.z, t);
    }
    // The translation of the exponential: p·t = V·u.
    let m = hat_spec(axis_spec(w));
    let vv = Mat3::identity_spec().scale_spec(theta).add_spec(
        m.scale_spec(one.sub_spec(theta.cos_spec())),
    ).add_spec(m.mat_mul_spec(m).scale_spec(theta.sub_spec(theta.sin_spec())));
    let p = rigid::exp_trans_spec(w, u);
    let pp = col3_image(v, p);
    assert(mat3_image(v, m) == skew3(a));
    lemma_mat_mul_image(v, m, m);
    assert(mat3_image(v, vv) == exp_matrix(a, t, s, c)) by {
        lemma_exp_matrix_terms(a, t, s, c);
    }
    lemma_mul_vec_image(v, vv, u);
    let q = apply3(exp_matrix(a, t, s, c), uu);
    assert(pp.x * t == q.x && pp.y * t == q.y && pp.z * t == q.z);
    // The coefficients of the logarithm.
    assert(-1real < c < 1real);
    let i = v(one.div_spec(theta2));
    assert(i * t == 1real);
    let half_angle = theta2.div_spec(two);
    assert(v(half_angle) * 2real == t);
    let tan = v(half_angle.tan_spec());
    assert(tan * s == 1real - c);
    if tan == 0real {
        lemma_mul_zero(s);
    }
    let cot = v(one.div_spec(half_angle.tan_spec()));
    assert(cot * tan == 1real);
    assert(cot * (1real - c) == s) by {
        lemma_assoc(cot, tan, s);
        lemma_mul_eq(tan * s, 1real - c, cot);
        lemma_comm(tan * s, cot);
        lemma_comm(1real - c, cot);
        lemma_mul_eq(cot * tan, 1real, s);
    }
    let coefficient = one.div_spec(theta2).sub_spec(
        one.div_spec(half_angle.tan_spec()).div_spec(two),
    );
    let g = v(coefficient);
    assert(g == i - cot / 2real);
    // The matrix of the logarithm.
    let m2 = hat_spec(axis_spec(w2));
    assert(mat3_image(v, m2) == skew3(a));
    lemma_mat_mul_image(v, m2, m2);
    let zero_over = v(T::zero_spec().div_spec(theta2));
    assert(zero_over == 0real) by {
        lemma_mul_zero(t);
        lemma_cancel_factor(zero_over, 0real, t);
    }
    let gg = Mat3::identity_spec().div_spec(theta2).sub_spec(m2.div_spec(two)).add_spec(
        m2.mat_mul_spec(m2).scale_spec(coefficient),
    );
    assert(mat3_image(v, gg) == log_matrix(a, i, g)) by {
        lemma_log_matrix_terms(a, i, g);
        let halves = mat3_image(v, m2.div_spec(two));
        let skew = skew3(a);
        lemma_minus_half(skew.m01, halves.m01);
        lemma_minus_half(skew.m02, halves.m02);
        lemma_minus_half(skew.m10, halves.m10);
        lemma_minus_half(skew.m12, halves.m12);
        lemma_minus_half(skew.m20, halves.m20);
        lemma_minus_half(skew.m21, halves.m21);
    }
    // G·p, scaled by the angle, is G·(V·u) = u.
    lemma_mul_vec_image(v, gg, p);
    lemma_apply_scaled(log_matrix(a, i, g), pp, t);
    assert((Col3 { x: pp.x * t, y: pp.y * t, z: pp.z * t }) == q);
    lemma_log_matrix_undoes_exp_matrix(a, t, s, c, i, cot, uu);
}

/// The logarithm undoes the exponential of rigid motions. For a twist
/// `(w, u)` with `w` of length below π, `log(exp(w, u))` stands for
/// `(w, u)` where the length of `w` is not below the tolerance; where it is,
/// `log(exp(w, u))` is `(0, u)`. Either way the translation part comes back
/// as it was, and each component of the rotation part comes back nearer to
/// that of `w` than the tolerance.
pub proof fn lemma_rigid_log_exp<T: Real>(v: spec_fn(T) -> real, w: Col3<T>, u: Col3<T>)
    requires
        exact(v),
        v(length_spec(w)) < v(T::pi_spec()),
    ensures
        ({
            let back = rigid::log_spec(rigid::exp_spec(w, u));
            let rotation = col3_image(v, upper_spec(back));
            let e = v(T::epsilon_spec());
            &&& back.len() == 6
            &&& !approx_zero_spec(length_spec(w)) ==> rotation == col3_image(v, w)
            &&& approx_zero_spec(length_spec(w)) ==> back == stack_spec(Col3::zeros_spec(), u)
            &&& col3_image(v, lower_spec(back)) == col3_image(v, u)
            &&& -e < rotation.x - v(w.x) < e
            &&& -e < rotation.y - v(w.y) < e
            &&& -e < rotation.z - v(w.z) < e
        }),
{
    let g = rigid::exp_spec(w, u);
    let w2 = rot::log_spec(g.rot_spec());
    lemma_log_exp(v, w);
    if approx_zero_spec(length_spec(w)) {
        assert(g.rot_spec() == rot::exp_spec(w));
        assert(w2 == Col3::<T>::zeros_spec());
        lemma_zero_is_approx_zero(v, w2);
    } else {
        assert(g.rot_spec() == rot::exp_spec(w));
        assert(g.trans_spec() == rigid::exp_trans_spec(w, u));
        lemma_log_trans_exp_trans(v, w, w2, u);
    }
}

/// What row `i` of a 6×6 matrix times six scalars stands for.
proof fn lemma_row6_image<T: Real>(v: spec_fn(T) -> real, a: Seq<T>, xi: Seq<T>, i: int)
    requires
        exact(v),
    ensures
        v(row6_spec(a, xi, i)) == v(a[i]) * v(xi[0]) + v(a[6 + i]) * v(xi[1]) + v(a[12 + i]) * v(
            xi[2],
        ) + v(a[18 + i]) * v(xi[3]) + v(a[24 + i]) * v(xi[4]) + v(a[30 + i]) * v(xi[5]),
{
}

/// The adjoint of the motion `[[R, p], [0, 1]]` sends the twist `(w, u)` to
/// `(R·w, (skew(p)·R)·w + R·u)`.
pub proof fn lemma_adjoint_act<T: Real>(v: spec_fn(T) -> real, m: Mat4<T>, xi: Seq<T>)
    requires
        exact(v),
        xi.len() == 6,
    ensures
        ({
            let r = mat3_image(v, m.rot_spec());
            let p = col3_image(v, m.trans_spec());
            let w = col3_image(v, upper_spec(xi));
            let u = col3_image(v, lower_spec(xi));
            let out = seq_image(v, mat6_mul_vec_spec(rigid::adjoint_spec(m), xi));
            &&& out.len() == 6
            &&& (Col3 { x: out[0], y: out[1], z: out[2] }) == apply3(r, w)
            &&& (Col3 { x: out[3], y: out[4], z: out[5] }) == sum3(
                apply3(product3(skew3(p), r), w),
                apply3(r, u),
            )
        }),
{
    let a = rigid::adjoint_spec(m);
    let rot = m.rot_spec();
    let lower_left = hat_spec(m.trans_spec()).mat_mul_spec(rot);
    let r = mat3_image(v, rot);
    let p = col3_image(v, m.trans_spec());
    let pr = product3(skew3(p), r);
    let w = col3_image(v, upper_spec(xi));
    let u = col3_image(v, lower_spec(xi));
    let out = mat6_mul_vec_spec(a, xi);
    assert(a.len() == 36);
    assert(mat3_image(v, hat_spec(m.trans_spec())) == skew3(p));
    lemma_mat_mul_image(v, hat_spec(m.trans_spec()), rot);
    assert(mat3_image(v, lower_left) == pr);
    lemma_mul_zero(u.x);
    lemma_mul_zero(u.y);
    lemma_mul_zero(u.z);
    // The upper rows: (R, 0).
    assert(v(out[0]) == r.m00 * w.x + r.m01 * w.y + r.m02 * w.z) by {
        lemma_row6_image(v, a, xi, 0);
        assert(a[0] == rot.m00 && a[6] == rot.m01 && a[12] == rot.m02);
        assert(a[18] == T::zero_spec() && a[24] == T::zero_spec() && a[30] == T::zero_spec());
    }
    assert(v(out[1]) == r.m10 * w.x + r.m11 * w.y + r.m12 * w.z) by {
        lemma_row6_image(v, a, xi, 1);
        assert(a[1] == rot.m10 && a[7] == rot.m11 && a[13] == rot.m12);
        assert(a[19] == T::zero_spec() && a[25] == T::zero_spec() && a[31] == T::zero_spec());
    }
    assert(v(out[2]) == r.m20 * w.x + r.m21 * w.y + r.m22 * w.z) by {
        lemma_row6_image(v, a, xi, 2);
        assert(a[2] == rot.m20 && a[8] == rot.m21 && a[14] == rot.m22);
        assert(a[20] == T::zero_spec() && a[26] == T::zero_spec() && a[32] == T::zero_spec());
    }
    // The lower rows: (skew(p)·R, R).
    assert(v(out[3]) == (pr.m00 * w.x + pr.m01 * w.y + pr.m02 * w.z) + (r.m00 * u.x + r.m01 * u.y
        + r.m02 * u.z)) by {
        lemma_row6_image(v, a, xi, 3);
        assert(a[3] == lower_left.m00 && a[9] == lower_left.m01 && a[15] == lower_left.m02);
        assert(a[21] == rot.m00 && a[27] == rot.m01 && a[33] == rot.m02);
    }
    assert(v(out[4]) == (pr.m10 * w.x + pr.m11 * w.y + pr.m12 * w.z) + (r.m10 * u.x + r.m11 * u.y
        + r.m12 * u.z)) by {
        lemma_row6_image(v, a, xi, 4);
        assert(a[4] == lower_left.m10 && a[10] == lower_left.m11 && a[16] == lower_left.m12);
        assert(a[22] == rot.m10 && a[28] == rot.m11 && a[34] == rot.m12);
    }
    assert(v(out[5]) == (pr.m20 * w.x + pr.m21 * w.y + pr.m22 * w.z) + (r.m20 * u.x + r.m21 * u.y
        + r.m22 * u.z)) by {
        lemma_row6_image(v, a, xi, 5);
        assert(a[5] == lower_left.m20 && a[11] == lower_left.m21 && a[17] == lower_left.m22);
        assert(a[23] == rot.m20 && a[29] == rot.m21 && a[35] == rot.m22);
    }
}

/// A rotation and a translation make a rigid motion.
pub proof fn lemma_blocks_are_rigid<T: Real>(v: spec_fn(T) -> real, r: Mat3<T>, p: Col3<T>)
    requires
        exact(v),
        is_rotation(mat3_image(v, r)),
    ensures
        is_rigid(mat4_image(v, Mat4::from_blocks_spec(r, p))),
{
    assert(mat4_image(v, Mat4::from_blocks_spec(r, p)).rot_spec() == mat3_image(v, r));
}

/// The product of two rigid motions is a rigid motion.
pub proof fn lemma_product_is_rigid<T: Real>(v: spec_fn(T) -> real, g: Mat4<T>, h: Mat4<T>)
    requires
        exact(v),
        is_rigid(mat4_image(v, g)),
        is_rigid(mat4_image(v, h)),
    ensures
        is_rigid(mat4_image(v, g.mat_mul_spec(h))),
{
    lemma_rigid_product(v, g, h);
    assert(mat3_image(v, g.rot_spec()) == mat4_image(v, g).rot_spec());
    assert(mat3_image(v, h.rot_spec()) == mat4_image(v, h).rot_spec());
    lemma_product_of_rotations(mat3_image(v, g.rot_spec()), mat3_image(v, h.rot_spec()));
}

} // verus!
