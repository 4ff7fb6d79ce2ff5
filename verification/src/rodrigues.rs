//! Rodrigues' formula over the real numbers: the matrix that it yields for
//! a unit axis is a rotation.

use crate::linalg::{Col3, Mat3};
use crate::matrices::{det3, identity3, is_rotation, plus3, product3, scaled3, skew3};
use crate::ring::{
    lemma_assoc, lemma_comm, lemma_common_factor, lemma_diff_squares, lemma_dist2, lemma_dist3,
    lemma_dist_sub, lemma_interchange, lemma_mul_eq, lemma_mul_zero, lemma_neg_mul,
    lemma_prod_sum_diff, lemma_prod_sums, lemma_rearrange, lemma_square_diff, lemma_square_prod,
    lemma_square_sum,
};
use vstd::prelude::*;

verus! {

/// Rodrigues' formula `I + S·s + S²·(1 − c)` for the axis `a`, with `S` the
/// skew-symmetric matrix of `a`, `s` the sine and `c` the cosine of the
/// angle.
pub open spec fn rodrigues(a: Col3<real>, s: real, c: real) -> Mat3<real> {
    let m = skew3(a);
    plus3(plus3(identity3(), scaled3(m, s)), scaled3(product3(m, m), 1real - c))
}

/// The column `a` has length one.
pub open spec fn unit(a: Col3<real>) -> bool {
    a.x * a.x + a.y * a.y + a.z * a.z == 1real
}

/// The matrix of Rodrigues' formula for a unit axis, entry by entry, with
/// `k = 1 − c`: `c + k·aᵢ²` on the diagonal, and `k·aᵢ·aⱼ ∓ s·aₗ` off it.
pub open spec fn axis_angle_matrix(a: Col3<real>, s: real, c: real) -> Mat3<real> {
    let k = 1real - c;
    Mat3 {
        m00: c + k * (a.x * a.x),
        m01: k * (a.x * a.y) - s * a.z,
        m02: k * (a.x * a.z) + s * a.y,
        m10: k * (a.y * a.x) + s * a.z,
        m11: c + k * (a.y * a.y),
        m12: k * (a.y * a.z) - s * a.x,
        m20: k * (a.z * a.x) - s * a.y,
        m21: k * (a.z * a.y) + s * a.x,
        m22: c + k * (a.z * a.z),
    }
}

/// `(p, q, r)` is a unit vector, `s` and `c` lie on the unit circle, and
/// `k = 1 − c`.
pub open spec fn angle(c: real, s: real, k: real, p: real, q: real, r: real) -> bool {
    &&& p * p + q * q + r * r == 1real
    &&& s * s + c * c == 1real
    &&& k == 1real - c
}

/// `(2ck + k² − s²)·t = 0` where `s² + c² = 1` and `k = 1 − c`.
proof fn lemma_angle_balance(c: real, s: real, k: real, t: real)
    requires
        s * s + c * c == 1real,
        k == 1real - c,
    ensures
        2real * (c * (k * t)) + (k * k) * t - (s * s) * t == 0real,
{
    assert(2real * (c * ((1real - c) * t)) + ((1real - c) * (1real - c)) * t - (1real - c * c) * t
        == 0real) by (nonlinear_arith);
}

/// `k·p² + k·q² + k·r² = k` for a unit vector `(p, q, r)`.
pub proof fn lemma_unit_sum(p: real, q: real, r: real, k: real)
    requires
        p * p + q * q + r * r == 1real,
    ensures
        k * (p * p) + k * (q * q) + k * (r * r) == k,
{
    let pp = p * p;
    let qq = q * q;
    let rr = r * r;
    lemma_dist3(pp, qq, rr, k);
    lemma_mul_eq(pp + qq + rr, 1real, k);
    lemma_comm(pp, k);
    lemma_comm(qq, k);
    lemma_comm(rr, k);
}

/// `k·(p²·t) + k·(q²·t) + k·(r²·t) = k·t` for a unit vector `(p, q, r)`.
proof fn lemma_unit_weight(p: real, q: real, r: real, t: real, k: real)
    requires
        p * p + q * q + r * r == 1real,
    ensures
        k * ((p * p) * t) + k * ((q * q) * t) + k * ((r * r) * t) == k * t,
{
    let pp = p * p;
    let qq = q * q;
    let rr = r * r;
    lemma_dist3(pp, qq, rr, t);
    lemma_mul_eq(pp + qq + rr, 1real, t);
    lemma_dist3(pp * t, qq * t, rr * t, k);
    lemma_mul_eq(pp * t + qq * t + rr * t, t, k);
    lemma_comm(pp * t, k);
    lemma_comm(qq * t, k);
    lemma_comm(rr * t, k);
    lemma_comm(t, k);
}

/// A column of the matrix has length one.
proof fn lemma_column_unit(c: real, s: real, k: real, p: real, q: real, r: real)
    requires
        angle(c, s, k, p, q, r),
    ensures
        (c + k * (p * p)) * (c + k * (p * p)) + (k * (q * p) + s * r) * (k * (q * p) + s * r) + (k
            * (r * p) - s * q) * (k * (r * p) - s * q) == 1real,
{
    let pp = p * p;
    let qq = q * q;
    let rr = r * r;
    let a = k * pp;
    let x = k * (q * p);
    let y = s * r;
    let z = k * (r * p);
    let w = s * q;
    // The three squares, multiplied out.
    assert((c + a) * (c + a) == c * c + 2real * (c * a) + a * a) by {
        lemma_square_sum(c, a);
    }
    assert((x + y) * (x + y) == x * x + 2real * (x * y) + y * y) by {
        lemma_square_sum(x, y);
    }
    assert((z - w) * (z - w) == z * z - 2real * (z * w) + w * w) by {
        lemma_square_diff(z, w);
    }
    // The mixed terms cancel.
    assert(x * y == z * w) by {
        lemma_interchange(k, q * p, s, r);
        lemma_interchange(k, r * p, s, q);
        lemma_rearrange(r, q, p);
        lemma_comm(q * p, r);
        lemma_comm(r * p, q);
    }
    // The terms with k²: k²·(p² + q² + r²)·p² = k²·p².
    assert(a * a == (k * k) * (pp * pp)) by {
        lemma_square_prod(k, pp);
    }
    assert(x * x == (k * k) * (qq * pp)) by {
        lemma_square_prod(k, q * p);
        lemma_square_prod(q, p);
    }
    assert(z * z == (k * k) * (rr * pp)) by {
        lemma_square_prod(k, r * p);
        lemma_square_prod(r, p);
    }
    assert(a * a + x * x + z * z == (k * k) * pp) by {
        lemma_unit_weight(p, q, r, pp, k * k);
    }
    // The terms with s²: s²·(q² + r²) = s² − s²·p².
    assert(y * y == (s * s) * rr) by {
        lemma_square_prod(s, r);
    }
    assert(w * w == (s * s) * qq) by {
        lemma_square_prod(s, q);
    }
    assert(y * y + w * w == s * s - (s * s) * pp) by {
        lemma_unit_sum(p, q, r, s * s);
    }
    assert(2real * (c * a) + (k * k) * pp - (s * s) * pp == 0real) by {
        lemma_angle_balance(c, s, k, pp);
    }
}

/// Two columns of the matrix are orthogonal.
proof fn lemma_columns_orthogonal(c: real, s: real, k: real, p: real, q: real, r: real)
    requires
        angle(c, s, k, p, q, r),
    ensures
        (c + k * (p * p)) * (k * (q * p) - s * r) + (k * (q * p) + s * r) * (c + k * (q * q)) + (k
            * (r * p) - s * q) * (k * (r * q) + s * p) == 0real,
{
    let t = q * p;
    let a = k * (p * p);
    let b = k * (q * q);
    let x = k * t;
    let y = s * r;
    let z = k * (r * p);
    let w = s * q;
    let v = k * (r * q);
    let u = s * p;
    // The three products, multiplied out.
    assert((c + a) * (x - y) == c * x - c * y + a * x - a * y) by {
        lemma_prod_sum_diff(c, a, x, y);
    }
    assert((x + y) * (c + b) == c * x + b * x + c * y + b * y) by {
        lemma_prod_sums(x, y, c, b);
        lemma_comm(x, c);
        lemma_comm(x, b);
        lemma_comm(y, c);
        lemma_comm(y, b);
    }
    assert((z - w) * (v + u) == v * z - v * w + u * z - u * w) by {
        lemma_prod_sum_diff(v, u, z, w);
        lemma_comm(z - w, v + u);
    }
    // The terms with k²: k²·(p² + q² + r²)·q·p = k²·q·p.
    assert(a * x == (k * k) * ((p * p) * t)) by {
        lemma_common_factor(k, p * p, t);
    }
    assert(b * x == (k * k) * ((q * q) * t)) by {
        lemma_common_factor(k, q * q, t);
    }
    assert(v * z == (k * k) * ((r * r) * t)) by {
        lemma_common_factor(k, r * q, r * p);
        lemma_common_factor(r, q, p);
    }
    assert(a * x + b * x + v * z == (k * k) * t) by {
        lemma_unit_weight(p, q, r, t, k * k);
    }
    // The terms with k·s cancel in pairs.
    assert(a * y == u * z) by {
        lemma_interchange(k, p * p, s, r);
        lemma_interchange(s, p, k, r * p);
        lemma_comm(k, s);
        lemma_assoc(p, p, r);
        lemma_comm(p, r);
    }
    assert(b * y == v * w) by {
        lemma_interchange(k, q * q, s, r);
        lemma_interchange(k, r * q, s, q);
        lemma_assoc(r, q, q);
        lemma_comm(q * q, r);
    }
    // The term with s².
    assert(u * w == (s * s) * t) by {
        lemma_common_factor(s, p, q);
        lemma_comm(p, q);
    }
    assert(2real * (c * x) + (k * k) * t - (s * s) * t == 0real) by {
        lemma_angle_balance(c, s, k, t);
    }
}

/// A diagonal entry of the matrix is its own cofactor.
proof fn lemma_diagonal_cofactor(c: real, s: real, k: real, p: real, q: real, r: real)
    requires
        angle(c, s, k, p, q, r),
    ensures
        (c + k * (q * q)) * (c + k * (r * r)) - (k * (q * r) - s * p) * (k * (r * q) + s * p) == c
            + k * (p * p),
{
    let pp = p * p;
    let a = k * pp;
    let b = k * (q * q);
    let d = k * (r * r);
    let v = k * (q * r);
    let w = s * p;
    assert((c + b) * (c + d) == c * c + c * d + c * b + b * d) by {
        lemma_prod_sums(c, b, c, d);
        lemma_comm(b, c);
    }
    assert((v - w) * (k * (r * q) + w) == v * v - w * w) by {
        lemma_diff_squares(v, w);
        lemma_comm(q, r);
    }
    assert(b * d == v * v) by {
        lemma_common_factor(k, q * q, r * r);
        lemma_square_prod(k, q * r);
        lemma_square_prod(q, r);
    }
    assert(w * w == (s * s) * pp) by {
        lemma_square_prod(s, p);
    }
    // c·k·(q² + r²) = c·k − c·k·p².
    assert(c * d + c * b == c * k - c * a) by {
        lemma_unit_sum(p, q, r, k);
        lemma_dist2(b, d, c);
        lemma_mul_eq(b + d, k - a, c);
        lemma_dist_sub(c, k, a);
        lemma_comm(b, c);
        lemma_comm(d, c);
        lemma_comm(k - a, c);
    }
    assert(c * c + c * k - c * a + (s * s) * pp == c + a) by {
        assert(c * c + c * (1real - c) - c * ((1real - c) * pp) + (1real - c * c) * pp == c + (
        1real - c) * pp) by (nonlinear_arith);
    }
}

/// An entry off the diagonal is its own cofactor.
proof fn lemma_off_diagonal_cofactor(c: real, s: real, k: real, p: real, q: real, r: real)
    requires
        angle(c, s, k, p, q, r),
    ensures
        (k * (q * p) + s * r) * (k * (r * q) + s * p) - (c + k * (q * q)) * (k * (r * p) - s * q)
            == k * (p * r) + s * q,
{
    let t = r * p;
    let b = k * (q * q);
    let x = k * (q * p);
    let y = s * r;
    let v = k * (r * q);
    let u = s * p;
    let z = k * t;
    let w = s * q;
    assert((x + y) * (v + u) == x * v + x * u + y * v + y * u) by {
        lemma_prod_sums(x, y, v, u);
    }
    assert((c + b) * (z - w) == c * z - c * w + b * z - b * w) by {
        lemma_prod_sum_diff(c, b, z, w);
    }
    assert(x * v == b * z) by {
        lemma_common_factor(k, q * p, r * q);
        lemma_common_factor(k, q * q, t);
        lemma_interchange(q, p, r, q);
        lemma_comm(q, r);
        lemma_comm(p, q);
        lemma_comm(q * r, p * q);
        lemma_interchange(r, q, p, q);
        lemma_comm(r * p, q * q);
    }
    // The terms with k·s add up to k·s·q·(p² + q² + r²) = k·s·q.
    assert(x * u == k * ((p * p) * w)) by {
        lemma_assoc(k, q * p, u);
        lemma_interchange(q, p, s, p);
        lemma_comm(q * s, p * p);
        lemma_comm(q, s);
    }
    assert(y * v == k * ((r * r) * w)) by {
        lemma_comm(y, v);
        lemma_assoc(k, r * q, y);
        lemma_interchange(r, q, s, r);
        lemma_comm(q, r);
        lemma_interchange(r, s, r, q);
    }
    assert(b * w == k * ((q * q) * w)) by {
        lemma_assoc(k, q * q, w);
    }
    assert(x * u + y * v + b * w == k * w) by {
        lemma_unit_weight(p, q, r, w, k);
    }
    assert(y * u == (s * s) * t) by {
        lemma_common_factor(s, r, p);
    }
    // (k + c)·s·q = s·q.
    assert(k * w + c * w == w) by {
        assert((1real - c) * w + c * w == w) by (nonlinear_arith);
    }
    assert((s * s) * t - c * z == k * (p * r)) by {
        assert((1real - c * c) * t - c * ((1real - c) * t) == (1real - c) * t)
            by (nonlinear_arith);
        lemma_comm(p, r);
    }
}

/// The columns of the matrix are orthonormal.
proof fn lemma_columns_orthonormal(a: Col3<real>, s: real, c: real)
    requires
        unit(a),
        s * s + c * c == 1real,
    ensures
        product3(axis_angle_matrix(a, s, c).transpose_spec(), axis_angle_matrix(a, s, c))
            == identity3(),
{
    let k = 1real - c;
    let x = a.x;
    let y = a.y;
    let z = a.z;
    let m = axis_angle_matrix(a, s, c);
    let g = product3(m.transpose_spec(), m);
    lemma_comm(x, y);
    lemma_comm(y, z);
    lemma_comm(z, x);
    assert(g.m00 == 1real) by {
        lemma_column_unit(c, s, k, x, y, z);
    }
    assert(g.m11 == 1real) by {
        lemma_column_unit(c, s, k, y, z, x);
    }
    assert(g.m22 == 1real) by {
        lemma_column_unit(c, s, k, z, x, y);
    }
    assert(g.m01 == 0real) by {
        lemma_columns_orthogonal(c, s, k, x, y, z);
    }
    assert(g.m12 == 0real) by {
        lemma_columns_orthogonal(c, s, k, y, z, x);
    }
    assert(g.m02 == 0real) by {
        lemma_columns_orthogonal(c, s, k, z, x, y);
        lemma_comm(m.m22, m.m20);
        lemma_comm(m.m02, m.m00);
        lemma_comm(m.m12, m.m10);
    }
    assert(g.m10 == g.m01) by {
        lemma_comm(m.m01, m.m00);
        lemma_comm(m.m11, m.m10);
        lemma_comm(m.m21, m.m20);
    }
    assert(g.m21 == g.m12) by {
        lemma_comm(m.m02, m.m01);
        lemma_comm(m.m12, m.m11);
        lemma_comm(m.m22, m.m21);
    }
    assert(g.m20 == g.m02) by {
        lemma_comm(m.m02, m.m00);
        lemma_comm(m.m12, m.m10);
        lemma_comm(m.m22, m.m20);
    }
}

/// Turning the other way gives the transposed matrix.
proof fn lemma_opposite_angle(a: Col3<real>, s: real, c: real)
    ensures
        axis_angle_matrix(a, -s, c) == axis_angle_matrix(a, s, c).transpose_spec(),
{
    lemma_comm(a.x, a.y);
    lemma_comm(a.y, a.z);
    lemma_comm(a.z, a.x);
    lemma_neg_mul(s, a.x);
    lemma_neg_mul(s, a.y);
    lemma_neg_mul(s, a.z);
}

/// The determinant of the matrix is one.
proof fn lemma_determinant_one(a: Col3<real>, s: real, c: real)
    requires
        unit(a),
        s * s + c * c == 1real,
        product3(axis_angle_matrix(a, s, c), axis_angle_matrix(a, s, c).transpose_spec())
            == identity3(),
    ensures
        det3(axis_angle_matrix(a, s, c)) == 1real,
{
    let k = 1real - c;
    let x = a.x;
    let y = a.y;
    let z = a.z;
    let m = axis_angle_matrix(a, s, c);
    // Each entry of the first row is its own cofactor.
    assert(m.m11 * m.m22 - m.m12 * m.m21 == m.m00) by {
        lemma_diagonal_cofactor(c, s, k, x, y, z);
    }
    assert(m.m10 * m.m21 - m.m11 * m.m20 == m.m02) by {
        lemma_off_diagonal_cofactor(c, s, k, x, y, z);
    }
    assert(m.m10 * m.m22 - m.m12 * m.m20 == -m.m01) by {
        assert((-s) * (-s) == s * s) by (nonlinear_arith);
        lemma_off_diagonal_cofactor(c, -s, k, x, z, y);
        lemma_neg_mul(s, x);
        lemma_neg_mul(s, y);
        lemma_neg_mul(s, z);
        lemma_comm(x, y);
        lemma_comm(y, z);
        lemma_comm(m.m20, m.m12);
        lemma_comm(m.m22, m.m10);
    }
    // So the determinant is the squared length of the first row.
    assert(m.m00 * (m.m11 * m.m22 - m.m12 * m.m21) == m.m00 * m.m00) by {
        lemma_mul_eq(m.m11 * m.m22 - m.m12 * m.m21, m.m00, m.m00);
        lemma_comm(m.m11 * m.m22 - m.m12 * m.m21, m.m00);
    }
    assert(m.m01 * (m.m10 * m.m22 - m.m12 * m.m20) == -(m.m01 * m.m01)) by {
        lemma_mul_eq(m.m10 * m.m22 - m.m12 * m.m20, -m.m01, m.m01);
        lemma_comm(m.m10 * m.m22 - m.m12 * m.m20, m.m01);
        lemma_neg_mul(m.m01, m.m01);
    }
    assert(m.m02 * (m.m10 * m.m21 - m.m11 * m.m20) == m.m02 * m.m02) by {
        lemma_mul_eq(m.m10 * m.m21 - m.m11 * m.m20, m.m02, m.m02);
        lemma_comm(m.m10 * m.m21 - m.m11 * m.m20, m.m02);
    }
    let g = product3(m, m.transpose_spec());
    assert(g.m00 == m.m00 * m.m00 + m.m01 * m.m01 + m.m02 * m.m02);
}

/// The matrix of a unit axis and an angle is a rotation.
pub proof fn lemma_axis_angle_rotation(a: Col3<real>, s: real, c: real)
    requires
        unit(a),
        s * s + c * c == 1real,
    ensures
        is_rotation(axis_angle_matrix(a, s, c)),
{
    let m = axis_angle_matrix(a, s, c);
    lemma_columns_orthonormal(a, s, c);
    assert(product3(m, m.transpose_spec()) == identity3()) by {
        let n = axis_angle_matrix(a, -s, c);
        assert((-s) * (-s) == s * s) by (nonlinear_arith);
        lemma_columns_orthonormal(a, -s, c);
        lemma_opposite_angle(a, s, c);
        assert(n.transpose_spec() == m);
    }
    lemma_determinant_one(a, s, c);
}

/// The matrix `a·aᵗ − I`.
pub open spec fn outer_minus_identity(a: Col3<real>) -> Mat3<real> {
    Mat3 {
        m00: a.x * a.x - 1real,
        m01: a.x * a.y,
        m02: a.z * a.x,
        m10: a.x * a.y,
        m11: a.y * a.y - 1real,
        m12: a.y * a.z,
        m20: a.z * a.x,
        m21: a.y * a.z,
        m22: a.z * a.z - 1real,
    }
}

/// The square of the skew-symmetric matrix of a unit vector `a` is
/// `a·aᵗ − I`.
pub proof fn lemma_skew_square(a: Col3<real>)
    requires
        unit(a),
    ensures
        product3(skew3(a), skew3(a)) == outer_minus_identity(a),
{
    let x = a.x;
    let y = a.y;
    let z = a.z;
    lemma_neg_mul(x, x);
    lemma_neg_mul(y, y);
    lemma_neg_mul(z, z);
    lemma_neg_mul(x, y);
    lemma_neg_mul(y, x);
    lemma_neg_mul(y, z);
    lemma_neg_mul(z, y);
    lemma_neg_mul(z, x);
    lemma_neg_mul(x, z);
    lemma_neg_mul(-x, y);
    lemma_neg_mul(-y, z);
    lemma_neg_mul(-z, x);
    lemma_comm(x, y);
    lemma_comm(y, z);
    lemma_comm(z, x);
    lemma_mul_zero(x);
    lemma_mul_zero(y);
    lemma_mul_zero(z);
    lemma_mul_zero(-x);
    lemma_mul_zero(-y);
    lemma_mul_zero(-z);
}

/// The cube of the skew-symmetric matrix of a unit vector is the matrix
/// negated.
pub proof fn lemma_skew_cube(a: Col3<real>)
    requires
        unit(a),
    ensures
        product3(skew3(a), product3(skew3(a), skew3(a))) == skew3(
            Col3 { x: -a.x, y: -a.y, z: -a.z },
        ),
{
    let x = a.x;
    let y = a.y;
    let z = a.z;
    lemma_skew_square(a);
    let m = skew3(a);
    let q = outer_minus_identity(a);
    let p = product3(m, q);
    assert(p.m00 == 0real) by {
        assert(0real * (x * x - 1real) + (-z) * (x * y) + y * (z * x) == 0real)
            by (nonlinear_arith);
    }
    assert(p.m01 == z) by {
        assert(0real * (x * y) + (-z) * (y * y - 1real) + y * (y * z) == z) by (nonlinear_arith);
    }
    assert(p.m02 == -y) by {
        assert(0real * (z * x) + (-z) * (y * z) + y * (z * z - 1real) == -y) by (nonlinear_arith);
    }
    assert(p.m10 == -z) by {
        assert(z * (x * x - 1real) + 0real * (x * y) + (-x) * (z * x) == -z) by (nonlinear_arith);
    }
    assert(p.m11 == 0real) by {
        assert(z * (x * y) + 0real * (y * y - 1real) + (-x) * (y * z) == 0real)
            by (nonlinear_arith);
    }
    assert(p.m12 == x) by {
        assert(z * (z * x) + 0real * (y * z) + (-x) * (z * z - 1real) == x) by (nonlinear_arith);
    }
    assert(p.m20 == y) by {
        assert((-y) * (x * x - 1real) + x * (x * y) + 0real * (z * x) == y) by (nonlinear_arith);
    }
    assert(p.m21 == -x) by {
        assert((-y) * (x * y) + x * (y * y - 1real) + 0real * (y * z) == -x) by (nonlinear_arith);
    }
    assert(p.m22 == 0real) by {
        assert((-y) * (z * x) + x * (y * z) + 0real * (z * z - 1real) == 0real)
            by (nonlinear_arith);
    }
}

/// Rodrigues' formula for a unit axis, entry by entry.
pub proof fn lemma_rodrigues_entries(a: Col3<real>, s: real, c: real)
    requires
        unit(a),
    ensures
        rodrigues(a, s, c) == axis_angle_matrix(a, s, c),
{
    let k = 1real - c;
    let x = a.x;
    let y = a.y;
    let z = a.z;
    let m = skew3(a);
    let mm = product3(m, m);
    let r = rodrigues(a, s, c);
    let t = axis_angle_matrix(a, s, c);
    lemma_skew_square(a);
    lemma_neg_mul(x, s);
    lemma_neg_mul(y, s);
    lemma_neg_mul(z, s);
    lemma_comm(x, y);
    lemma_comm(y, z);
    lemma_comm(z, x);
    lemma_comm(x, s);
    lemma_comm(y, s);
    lemma_comm(z, s);
    lemma_mul_zero(s);
    assert(r.m00 == t.m00) by {
        lemma_mul_eq(mm.m00, x * x - 1real, k);
        lemma_dist_sub(k, x * x, 1real);
        lemma_comm(x * x - 1real, k);
    }
    assert(r.m11 == t.m11) by {
        lemma_mul_eq(mm.m11, y * y - 1real, k);
        lemma_dist_sub(k, y * y, 1real);
        lemma_comm(y * y - 1real, k);
    }
    assert(r.m22 == t.m22) by {
        lemma_mul_eq(mm.m22, z * z - 1real, k);
        lemma_dist_sub(k, z * z, 1real);
        lemma_comm(z * z - 1real, k);
    }
    assert(r.m01 == t.m01 && r.m10 == t.m10) by {
        lemma_mul_eq(mm.m01, x * y, k);
        lemma_mul_eq(mm.m10, x * y, k);
        lemma_comm(x * y, k);
    }
    assert(r.m02 == t.m02 && r.m20 == t.m20) by {
        lemma_mul_eq(mm.m02, z * x, k);
        lemma_mul_eq(mm.m20, z * x, k);
        lemma_comm(z * x, k);
    }
    assert(r.m12 == t.m12 && r.m21 == t.m21) by {
        lemma_mul_eq(mm.m12, y * z, k);
        lemma_mul_eq(mm.m21, y * z, k);
        lemma_comm(y * z, k);
    }
}

/// Rodrigues' formula yields a rotation: an orthonormal matrix of
/// determinant one, whatever the unit axis and the angle.
pub proof fn lemma_rodrigues_rotation(a: Col3<real>, s: real, c: real)
    requires
        unit(a),
        s * s + c * c == 1real,
    ensures
        is_rotation(rodrigues(a, s, c)),
{
    lemma_rodrigues_entries(a, s, c);
    lemma_axis_angle_rotation(a, s, c);
}

} // verus!
