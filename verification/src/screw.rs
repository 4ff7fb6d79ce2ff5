//! The translation parts of the rigid-motion exponential and logarithm over
//! the real numbers. The exponential sends the translation generator `u`
//! to `V·u / θ`, the logarithm sends a translation `p` to `θ·G·p`, with
//!
//! ```text
//! V = θ·I + (1 − cos θ)·S + (θ − sin θ)·S²
//! G = I/θ − S/2 + (1/θ − cot(θ/2)/2)·S²
//! ```
//!
//! and `S` the skew-symmetric matrix of the unit axis. The two undo each
//! other: `G·(V·u) = u`.

use crate::linalg::{Col3, Mat3};
use crate::matrices::{
    apply3, combine3, identity3, lemma_apply_combination, lemma_apply_lin, lemma_apply_neg,
    lemma_apply_product, lin3, neg3, plus3, product3, scaled3, skew3,
};
use crate::ring::{
    lemma_assoc, lemma_cancel_factor, lemma_comm, lemma_dist3, lemma_dist_sub, lemma_mul_eq,
    lemma_mul_zero, lemma_neg_mul,
};
use crate::rodrigues::{lemma_skew_cube, unit};
use vstd::prelude::*;

verus! {

/// The skew-symmetric matrix of a unit vector, applied three times, negates
/// what it yields when applied once.
pub proof fn lemma_skew_thrice(a: Col3<real>, u: Col3<real>)
    requires
        unit(a),
    ensures
        apply3(skew3(a), apply3(skew3(a), apply3(skew3(a), u))) == neg3(apply3(skew3(a), u)),
{
    let m = skew3(a);
    lemma_apply_product(m, m, u);
    lemma_apply_product(m, product3(m, m), u);
    lemma_skew_cube(a);
    let n = skew3(neg3(a));
    assert(apply3(n, u) == neg3(apply3(m, u))) by {
        lemma_neg_mul(a.x, u.y);
        lemma_neg_mul(a.x, u.z);
        lemma_neg_mul(a.y, u.x);
        lemma_neg_mul(a.y, u.z);
        lemma_neg_mul(a.z, u.x);
        lemma_neg_mul(a.z, u.y);
        lemma_neg_mul(-a.x, u.z);
        lemma_neg_mul(-a.y, u.x);
        lemma_neg_mul(-a.z, u.y);
        lemma_mul_zero(u.x);
        lemma_mul_zero(u.y);
        lemma_mul_zero(u.z);
    }
}

/// The matrix `V = t·I + (1 − c)·S + (t − s)·S²` of the exponential, for
/// the axis `a`, the angle `t`, its sine `s` and its cosine `c`.
pub open spec fn exp_matrix(a: Col3<real>, t: real, s: real, c: real) -> Mat3<real> {
    let m = skew3(a);
    combine3(t, identity3(), 1real - c, m, t - s, product3(m, m))
}

/// The matrix `G = i·I − S/2 + g·S²` of the logarithm, for the axis `a`,
/// with `i` standing for `1/t` and `g` for `1/t − cot(t/2)/2`.
pub open spec fn log_matrix(a: Col3<real>, i: real, g: real) -> Mat3<real> {
    let m = skew3(a);
    combine3(i, identity3(), -(1real / 2real), m, g, product3(m, m))
}

/// What ties the coefficients of `V` and `G` together. With `al = 1 − c`,
/// `be = t − s`, `i = 1/t`, `g = i − cot/2` and `cot = s / al`:
/// `g·al = i·al − s/2` and `i·be + g·t − g·be = al/2`.
proof fn lemma_coefficients(
    t: real,
    s: real,
    c: real,
    al: real,
    be: real,
    i: real,
    cot: real,
    g: real,
)
    requires
        s * s + c * c == 1real,
        al == 1real - c,
        al != 0real,
        be == t - s,
        i * t == 1real,
        cot * al == s,
        g == i - cot / 2real,
    ensures
        g * al == i * al - s / 2real,
        i * be + g * t - g * be == al / 2real,
{
    let half = 1real / 2real;
    // g·al = i·al − (cot·al)/2.
    assert(g * al == i * al - s / 2real) by {
        lemma_dist_sub(al, i, cot / 2real);
        lemma_comm(al, i - cot / 2real);
        lemma_comm(al, i);
        lemma_comm(al, cot / 2real);
        lemma_assoc(half, cot, al);
    }
    // cot·s = 1 + c.
    assert(cot * s == 1real + c) by {
        assert((cot * s) * al == s * s) by {
            lemma_assoc(cot, s, al);
            lemma_comm(s, al);
            lemma_assoc(cot, al, s);
            lemma_mul_eq(cot * al, s, s);
        }
        assert((1real + c) * (1real - c) == 1real - c * c) by (nonlinear_arith);
        lemma_cancel_factor(cot * s, 1real + c, al);
    }
    // i·be = 1 − i·s.
    assert(i * be == 1real - i * s) by {
        lemma_dist_sub(i, t, s);
    }
    // g·t − g·be = g·s = i·s − (cot·s)/2.
    assert(g * t - g * be == i * s - (1real + c) / 2real) by {
        lemma_dist_sub(g, t, be);
        lemma_mul_eq(t - be, s, g);
        lemma_comm(t - be, g);
        lemma_comm(s, g);
        lemma_dist_sub(s, i, cot / 2real);
        lemma_comm(s, i - cot / 2real);
        lemma_comm(s, i);
        lemma_comm(s, cot / 2real);
        lemma_assoc(half, cot, s);
    }
}

/// One component of `G·(V·u)`. With `uu`, `a1` and `a2` that component of
/// `u`, `S·u` and `S²·u`, the component is `uu`.
proof fn lemma_component(
    uu: real,
    a1: real,
    a2: real,
    i: real,
    t: real,
    al: real,
    be: real,
    g: real,
    s: real,
)
    requires
        i * t == 1real,
        be == t - s,
        g * al == i * al - s / 2real,
        i * be + g * t - g * be == al / 2real,
    ensures
        i * (t * uu + al * a1 + be * a2) + (-(1real / 2real)) * (t * a1 + al * a2 + be * (-a1)) + g
            * (t * a2 + al * (-a1) + be * (-a2)) == uu,
{
    let half = 1real / 2real;
    assert(i * (t * uu + al * a1 + be * a2) == uu + (i * al) * a1 + (i * be) * a2) by {
        lemma_dist3(t * uu, al * a1, be * a2, i);
        lemma_comm(t * uu + al * a1 + be * a2, i);
        lemma_comm(t * uu, i);
        lemma_comm(al * a1, i);
        lemma_comm(be * a2, i);
        lemma_assoc(i, t, uu);
        lemma_assoc(i, al, a1);
        lemma_assoc(i, be, a2);
        lemma_mul_eq(i * t, 1real, uu);
    }
    assert(g * (t * a2 + al * (-a1) + be * (-a2)) == (g * t) * a2 - (g * al) * a1 - (g * be) * a2)
        by {
        lemma_dist3(t * a2, al * (-a1), be * (-a2), g);
        lemma_comm(t * a2 + al * (-a1) + be * (-a2), g);
        lemma_comm(t * a2, g);
        lemma_comm(al * (-a1), g);
        lemma_comm(be * (-a2), g);
        lemma_assoc(g, t, a2);
        lemma_assoc(g, al, -a1);
        lemma_assoc(g, be, -a2);
        lemma_neg_mul(g * al, a1);
        lemma_neg_mul(g * be, a2);
    }
    // The terms with S·u.
    assert(be * (-a1) == s * a1 - t * a1) by {
        lemma_neg_mul(be, a1);
        lemma_mul_eq(be, t - s, a1);
        lemma_dist_sub(a1, t, s);
        lemma_comm(a1, t - s);
        lemma_comm(a1, t);
        lemma_comm(a1, s);
    }
    assert((i * al) * a1 - (g * al) * a1 == half * (s * a1)) by {
        lemma_dist_sub(a1, i * al, g * al);
        lemma_comm(a1, i * al - g * al);
        lemma_comm(a1, i * al);
        lemma_comm(a1, g * al);
        lemma_mul_eq(i * al - g * al, s / 2real, a1);
        lemma_assoc(half, s, a1);
    }
    // The terms with S²·u.
    assert((i * be) * a2 + (g * t) * a2 - (g * be) * a2 == half * (al * a2)) by {
        lemma_dist3(i * be, g * t, -(g * be), a2);
        lemma_neg_mul(g * be, a2);
        lemma_mul_eq(i * be + g * t + (-(g * be)), al / 2real, a2);
        lemma_assoc(half, al, a2);
    }
}

/// The matrix of the logarithm undoes the matrix of the exponential:
/// `G·(V·u) = u`.
pub proof fn lemma_log_matrix_undoes_exp_matrix(
    a: Col3<real>,
    t: real,
    s: real,
    c: real,
    i: real,
    cot: real,
    u: Col3<real>,
)
    requires
        unit(a),
        s * s + c * c == 1real,
        c != 1real,
        i * t == 1real,
        cot * (1real - c) == s,
    ensures
        apply3(log_matrix(a, i, i - cot / 2real), apply3(exp_matrix(a, t, s, c), u)) == u,
{
    let m = skew3(a);
    let mm = product3(m, m);
    let al = 1real - c;
    let be = t - s;
    let g = i - cot / 2real;
    let nh = -(1real / 2real);
    let u1 = apply3(m, u);
    let u2 = apply3(m, u1);
    let u3 = apply3(m, u2);
    assert(apply3(identity3(), u) == u);
    assert(apply3(mm, u) == u2) by {
        lemma_apply_product(m, m, u);
    }
    assert(u3 == neg3(u1)) by {
        lemma_skew_thrice(a, u);
    }
    // V·u, S·(V·u) and S²·(V·u) in terms of u, S·u and S²·u.
    let q = apply3(exp_matrix(a, t, s, c), u);
    assert(q == lin3(t, u, al, u1, be, u2)) by {
        lemma_apply_combination(t, identity3(), al, m, be, mm, u);
    }
    let sq = apply3(m, q);
    assert(sq == lin3(t, u1, al, u2, be, neg3(u1))) by {
        lemma_apply_lin(m, t, u, al, u1, be, u2);
    }
    let ssq = apply3(m, sq);
    assert(ssq == lin3(t, u2, al, neg3(u1), be, neg3(u2))) by {
        lemma_apply_lin(m, t, u1, al, u2, be, neg3(u1));
        lemma_apply_neg(m, u1);
    }
    assert(apply3(identity3(), q) == q);
    assert(apply3(mm, q) == ssq) by {
        lemma_apply_product(m, m, q);
    }
    let r = apply3(log_matrix(a, i, g), q);
    assert(r == lin3(i, q, nh, sq, g, ssq)) by {
        lemma_apply_combination(i, identity3(), nh, m, g, mm, q);
    }
    lemma_coefficients(t, s, c, al, be, i, cot, g);
    lemma_component(u.x, u1.x, u2.x, i, t, al, be, g, s);
    lemma_component(u.y, u1.y, u2.y, i, t, al, be, g, s);
    lemma_component(u.z, u1.z, u2.z, i, t, al, be, g, s);
}

/// The matrix of the exponential, as the sum of its three terms.
pub proof fn lemma_exp_matrix_terms(a: Col3<real>, t: real, s: real, c: real)
    ensures
        plus3(
            plus3(scaled3(identity3(), t), scaled3(skew3(a), 1real - c)),
            scaled3(product3(skew3(a), skew3(a)), t - s),
        ) == exp_matrix(a, t, s, c),
{
    let m = skew3(a);
    let mm = product3(m, m);
    lemma_comm_entries(m, 1real - c);
    lemma_comm_entries(mm, t - s);
}

/// The entries of a scaled matrix, with the factor in front.
proof fn lemma_comm_entries(m: Mat3<real>, k: real)
    ensures
        m.m00 * k == k * m.m00,
        m.m01 * k == k * m.m01,
        m.m02 * k == k * m.m02,
        m.m10 * k == k * m.m10,
        m.m11 * k == k * m.m11,
        m.m12 * k == k * m.m12,
        m.m20 * k == k * m.m20,
        m.m21 * k == k * m.m21,
        m.m22 * k == k * m.m22,
{
    lemma_comm(m.m00, k);
    lemma_comm(m.m01, k);
    lemma_comm(m.m02, k);
    lemma_comm(m.m10, k);
    lemma_comm(m.m11, k);
    lemma_comm(m.m12, k);
    lemma_comm(m.m20, k);
    lemma_comm(m.m21, k);
    lemma_comm(m.m22, k);
}

/// The matrix of the logarithm, as the sum of its three terms.
pub proof fn lemma_log_matrix_terms(a: Col3<real>, i: real, g: real)
    ensures
        plus3(
            plus3(scaled3(identity3(), i), scaled3(skew3(a), -(1real / 2real))),
            scaled3(product3(skew3(a), skew3(a)), g),
        ) == log_matrix(a, i, g),
{
    let m = skew3(a);
    let mm = product3(m, m);
    lemma_comm_entries(m, -(1real / 2real));
    lemma_comm_entries(mm, g);
}

} // verus!
