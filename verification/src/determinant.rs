//! The determinant of a product of real matrices is the product of the
//! determinants.
//!
//! The determinant of a matrix is the triple product of its rows, and the
//! triple product is linear in each of its three places and vanishes where
//! two of them hold the same column. The rows of a product `a·b` are
//! combinations of the rows of `b`; expanding the triple product of three
//! such combinations leaves the six orderings of the rows of `b`, each with
//! the sign of its ordering. It follows that the product of two rotations
//! is a rotation. The same triple products show that a matrix of
//! determinant one has its adjugate for an inverse, so that the rows of a
//! rotation are orthonormal as its columns are.

use crate::linalg::{Col3, Mat3};
use crate::matrices::{
    det3, identity3, is_rotation, lemma_exchange, lemma_identity_product, lemma_product_associative,
    lemma_transpose_det, lemma_transpose_product, lin3, product3,
};
use crate::ring::{
    lemma_assoc, lemma_comm, lemma_dist3, lemma_dist_sub, lemma_mul_one, lemma_mul_zero,
    lemma_neg_mul, lemma_rearrange,
};
use vstd::prelude::*;

verus! {

/// The triple product `x · (y × z)`.
pub open spec fn triple(x: Col3<real>, y: Col3<real>, z: Col3<real>) -> real {
    x.x * (y.y * z.z - y.z * z.y) - x.y * (y.x * z.z - y.z * z.x) + x.z * (y.x * z.y - y.y * z.x)
}

/// Row `i` of the matrix `a`, as a column.
pub open spec fn row(a: Mat3<real>, i: int) -> Col3<real> {
    if i == 0 {
        Col3 { x: a.m00, y: a.m01, z: a.m02 }
    } else if i == 1 {
        Col3 { x: a.m10, y: a.m11, z: a.m12 }
    } else {
        Col3 { x: a.m20, y: a.m21, z: a.m22 }
    }
}

/// The determinant is the triple product of the rows.
pub proof fn lemma_det_is_triple(a: Mat3<real>)
    ensures
        det3(a) == triple(row(a, 0), row(a, 1), row(a, 2)),
{
}

/// The triple product is linear in its first place.
pub proof fn lemma_triple_linear(
    x: real,
    p: Col3<real>,
    y: real,
    q: Col3<real>,
    z: real,
    r: Col3<real>,
    u: Col3<real>,
    w: Col3<real>,
)
    ensures
        triple(lin3(x, p, y, q, z, r), u, w) == x * triple(p, u, w) + y * triple(q, u, w) + z
            * triple(r, u, w),
{
    let c0 = u.y * w.z - u.z * w.y;
    let c1 = u.x * w.z - u.z * w.x;
    let c2 = u.x * w.y - u.y * w.x;
    let a = lin3(x, p, y, q, z, r);
    lemma_exchange(
        Col3 { x, y, z },
        Mat3 {
            m00: p.x,
            m01: p.y,
            m02: p.z,
            m10: q.x,
            m11: q.y,
            m12: q.z,
            m20: r.x,
            m21: r.y,
            m22: r.z,
        },
        Col3 { x: c0, y: -c1, z: c2 },
    );
    lemma_neg_mul(a.y, c1);
    lemma_neg_mul(p.y, c1);
    lemma_neg_mul(q.y, c1);
    lemma_neg_mul(r.y, c1);
}

/// The triple product is the same for the three cyclic orders of its
/// places.
pub proof fn lemma_triple_cyclic(x: Col3<real>, y: Col3<real>, z: Col3<real>)
    ensures
        triple(x, y, z) == triple(y, z, x),
        triple(x, y, z) == triple(z, x, y),
{
    lemma_dist_sub(x.x, y.y * z.z, y.z * z.y);
    lemma_dist_sub(x.y, y.x * z.z, y.z * z.x);
    lemma_dist_sub(x.z, y.x * z.y, y.y * z.x);
    lemma_dist_sub(y.x, z.y * x.z, z.z * x.y);
    lemma_dist_sub(y.y, z.x * x.z, z.z * x.x);
    lemma_dist_sub(y.z, z.x * x.y, z.y * x.x);
    lemma_dist_sub(z.x, x.y * y.z, x.z * y.y);
    lemma_dist_sub(z.y, x.x * y.z, x.z * y.x);
    lemma_dist_sub(z.z, x.x * y.y, x.y * y.x);
    lemma_comm(z.y, x.z);
    lemma_comm(z.z, x.y);
    lemma_comm(z.x, x.z);
    lemma_comm(z.z, x.x);
    lemma_comm(z.x, x.y);
    lemma_comm(z.y, x.x);
    lemma_rearrange(x.x, y.y, z.z);
    lemma_rearrange(x.x, y.z, z.y);
    lemma_rearrange(x.y, y.x, z.z);
    lemma_rearrange(x.y, y.z, z.x);
    lemma_rearrange(x.z, y.x, z.y);
    lemma_rearrange(x.z, y.y, z.x);
    lemma_rearrange(y.x, x.z, z.y);
    lemma_rearrange(y.x, x.y, z.z);
    lemma_rearrange(y.y, x.z, z.x);
    lemma_rearrange(y.y, x.x, z.z);
    lemma_rearrange(y.z, x.y, z.x);
    lemma_rearrange(y.z, x.x, z.y);
}

/// The triple product vanishes where its first two places hold the same
/// column.
pub proof fn lemma_triple_repeated(x: Col3<real>, z: Col3<real>)
    ensures
        triple(x, x, z) == 0real,
{
    lemma_dist_sub(x.x, x.y * z.z, x.z * z.y);
    lemma_dist_sub(x.y, x.x * z.z, x.z * z.x);
    lemma_dist_sub(x.z, x.x * z.y, x.y * z.x);
    lemma_rearrange(x.x, x.y, z.z);
    lemma_rearrange(x.x, x.z, z.y);
    lemma_rearrange(x.y, x.z, z.x);
}

/// Changing the places of the first two columns changes the sign of the
/// triple product.
pub proof fn lemma_triple_swap(x: Col3<real>, y: Col3<real>, z: Col3<real>)
    ensures
        triple(y, x, z) == -triple(x, y, z),
{
    lemma_dist_sub(x.x, y.y * z.z, y.z * z.y);
    lemma_dist_sub(x.y, y.x * z.z, y.z * z.x);
    lemma_dist_sub(x.z, y.x * z.y, y.y * z.x);
    lemma_dist_sub(y.x, x.y * z.z, x.z * z.y);
    lemma_dist_sub(y.y, x.x * z.z, x.z * z.x);
    lemma_dist_sub(y.z, x.x * z.y, x.y * z.x);
    lemma_rearrange(x.x, y.y, z.z);
    lemma_rearrange(x.x, y.z, z.y);
    lemma_rearrange(x.y, y.x, z.z);
    lemma_rearrange(x.y, y.z, z.x);
    lemma_rearrange(x.z, y.x, z.y);
    lemma_rearrange(x.z, y.y, z.x);
}

/// The triple product is linear in its third place.
pub proof fn lemma_triple_linear_third(
    u: Col3<real>,
    w: Col3<real>,
    x: real,
    p: Col3<real>,
    y: real,
    q: Col3<real>,
    z: real,
    r: Col3<real>,
)
    ensures
        triple(u, w, lin3(x, p, y, q, z, r)) == x * triple(u, w, p) + y * triple(u, w, q) + z
            * triple(u, w, r),
{
    let a = lin3(x, p, y, q, z, r);
    lemma_triple_cyclic(a, u, w);
    lemma_triple_linear(x, p, y, q, z, r, u, w);
    lemma_triple_cyclic(p, u, w);
    lemma_triple_cyclic(q, u, w);
    lemma_triple_cyclic(r, u, w);
}

/// The triple product is linear in its second place.
pub proof fn lemma_triple_linear_second(
    u: Col3<real>,
    x: real,
    p: Col3<real>,
    y: real,
    q: Col3<real>,
    z: real,
    r: Col3<real>,
    w: Col3<real>,
)
    ensures
        triple(u, lin3(x, p, y, q, z, r), w) == x * triple(u, p, w) + y * triple(u, q, w) + z
            * triple(u, r, w),
{
    let a = lin3(x, p, y, q, z, r);
    lemma_triple_cyclic(u, a, w);
    lemma_triple_linear(x, p, y, q, z, r, w, u);
    lemma_triple_cyclic(u, p, w);
    lemma_triple_cyclic(u, q, w);
    lemma_triple_cyclic(u, r, w);
}

/// The triple products of the rows of a matrix, in every order: the
/// determinant for the three cyclic orders, its negative for the other
/// three, and zero where a row comes twice.
pub proof fn lemma_row_orders(b: Mat3<real>)
    ensures
        triple(row(b, 0), row(b, 0), row(b, 0)) == 0real,
        triple(row(b, 0), row(b, 0), row(b, 1)) == 0real,
        triple(row(b, 0), row(b, 0), row(b, 2)) == 0real,
        triple(row(b, 0), row(b, 1), row(b, 0)) == 0real,
        triple(row(b, 0), row(b, 1), row(b, 1)) == 0real,
        triple(row(b, 0), row(b, 1), row(b, 2)) == det3(b),
        triple(row(b, 0), row(b, 2), row(b, 0)) == 0real,
        triple(row(b, 0), row(b, 2), row(b, 1)) == -det3(b),
        triple(row(b, 0), row(b, 2), row(b, 2)) == 0real,
        triple(row(b, 1), row(b, 0), row(b, 0)) == 0real,
        triple(row(b, 1), row(b, 0), row(b, 1)) == 0real,
        triple(row(b, 1), row(b, 0), row(b, 2)) == -det3(b),
        triple(row(b, 1), row(b, 1), row(b, 0)) == 0real,
        triple(row(b, 1), row(b, 1), row(b, 1)) == 0real,
        triple(row(b, 1), row(b, 1), row(b, 2)) == 0real,
        triple(row(b, 1), row(b, 2), row(b, 0)) == det3(b),
        triple(row(b, 1), row(b, 2), row(b, 1)) == 0real,
        triple(row(b, 1), row(b, 2), row(b, 2)) == 0real,
        triple(row(b, 2), row(b, 0), row(b, 0)) == 0real,
        triple(row(b, 2), row(b, 0), row(b, 1)) == det3(b),
        triple(row(b, 2), row(b, 0), row(b, 2)) == 0real,
        triple(row(b, 2), row(b, 1), row(b, 0)) == -det3(b),
        triple(row(b, 2), row(b, 1), row(b, 1)) == 0real,
        triple(row(b, 2), row(b, 1), row(b, 2)) == 0real,
        triple(row(b, 2), row(b, 2), row(b, 0)) == 0real,
        triple(row(b, 2), row(b, 2), row(b, 1)) == 0real,
        triple(row(b, 2), row(b, 2), row(b, 2)) == 0real,
{
    let r0 = row(b, 0);
    let r1 = row(b, 1);
    let r2 = row(b, 2);
    lemma_det_is_triple(b);
    lemma_triple_cyclic(r0, r1, r2);
    lemma_triple_swap(r0, r1, r2);
    lemma_triple_cyclic(r1, r0, r2);
    lemma_triple_repeated(r0, r0);
    lemma_triple_repeated(r0, r1);
    lemma_triple_cyclic(r0, r0, r1);
    lemma_triple_repeated(r0, r2);
    lemma_triple_cyclic(r0, r0, r2);
    lemma_triple_repeated(r1, r0);
    lemma_triple_cyclic(r1, r1, r0);
    lemma_triple_repeated(r1, r1);
    lemma_triple_repeated(r1, r2);
    lemma_triple_cyclic(r1, r1, r2);
    lemma_triple_repeated(r2, r0);
    lemma_triple_cyclic(r2, r2, r0);
    lemma_triple_repeated(r2, r1);
    lemma_triple_cyclic(r2, r2, r1);
    lemma_triple_repeated(r2, r2);
}

/// `x·(y·d) − u·(w·d) = (x·y − u·w)·d`.
proof fn lemma_minor_times(x: real, y: real, u: real, w: real, d: real)
    ensures
        x * (y * d) - u * (w * d) == (x * y - u * w) * d,
{
    lemma_assoc(x, y, d);
    lemma_assoc(u, w, d);
    lemma_dist_sub(d, x * y, u * w);
    lemma_comm(d, x * y - u * w);
    lemma_comm(d, x * y);
    lemma_comm(d, u * w);
}

/// The determinant of a product is the product of the determinants.
pub proof fn lemma_det_product(a: Mat3<real>, b: Mat3<real>)
    ensures
        det3(product3(a, b)) == det3(a) * det3(b),
{
    let d = det3(b);
    let b0 = row(b, 0);
    let b1 = row(b, 1);
    let b2 = row(b, 2);
    let ab = product3(a, b);
    let r0 = row(ab, 0);
    let r1 = row(ab, 1);
    let r2 = row(ab, 2);
    assert(r0 == lin3(a.m00, b0, a.m01, b1, a.m02, b2));
    assert(r1 == lin3(a.m10, b0, a.m11, b1, a.m12, b2));
    assert(r2 == lin3(a.m20, b0, a.m21, b1, a.m22, b2));
    lemma_row_orders(b);
    lemma_mul_zero(a.m20);
    lemma_mul_zero(a.m21);
    lemma_mul_zero(a.m22);
    lemma_neg_mul(a.m20, d);
    lemma_neg_mul(a.m21, d);
    lemma_neg_mul(a.m22, d);
    // The third row, expanded.
    assert(triple(b0, b1, r2) == a.m22 * d) by {
        lemma_triple_linear_third(b0, b1, a.m20, b0, a.m21, b1, a.m22, b2);
    }
    assert(triple(b0, b2, r2) == -(a.m21 * d)) by {
        lemma_triple_linear_third(b0, b2, a.m20, b0, a.m21, b1, a.m22, b2);
    }
    assert(triple(b1, b0, r2) == -(a.m22 * d)) by {
        lemma_triple_linear_third(b1, b0, a.m20, b0, a.m21, b1, a.m22, b2);
    }
    assert(triple(b1, b2, r2) == a.m20 * d) by {
        lemma_triple_linear_third(b1, b2, a.m20, b0, a.m21, b1, a.m22, b2);
    }
    assert(triple(b2, b0, r2) == a.m21 * d) by {
        lemma_triple_linear_third(b2, b0, a.m20, b0, a.m21, b1, a.m22, b2);
    }
    assert(triple(b2, b1, r2) == -(a.m20 * d)) by {
        lemma_triple_linear_third(b2, b1, a.m20, b0, a.m21, b1, a.m22, b2);
    }
    assert(triple(b0, b0, r2) == 0real) by {
        lemma_triple_repeated(b0, r2);
    }
    assert(triple(b1, b1, r2) == 0real) by {
        lemma_triple_repeated(b1, r2);
    }
    assert(triple(b2, b2, r2) == 0real) by {
        lemma_triple_repeated(b2, r2);
    }
    // The second row, expanded: each minor of `a`, times the determinant of `b`.
    let c0 = a.m11 * a.m22 - a.m12 * a.m21;
    let c1 = a.m10 * a.m22 - a.m12 * a.m20;
    let c2 = a.m10 * a.m21 - a.m11 * a.m20;
    lemma_mul_zero(a.m10);
    lemma_mul_zero(a.m11);
    lemma_mul_zero(a.m12);
    assert(triple(b0, r1, r2) == c0 * d) by {
        lemma_triple_linear_second(b0, a.m10, b0, a.m11, b1, a.m12, b2, r2);
        lemma_neg_mul(a.m12, a.m21 * d);
        lemma_minor_times(a.m11, a.m22, a.m12, a.m21, d);
    }
    assert(triple(b1, r1, r2) == -(c1 * d)) by {
        lemma_triple_linear_second(b1, a.m10, b0, a.m11, b1, a.m12, b2, r2);
        lemma_neg_mul(a.m10, a.m22 * d);
        lemma_minor_times(a.m10, a.m22, a.m12, a.m20, d);
    }
    assert(triple(b2, r1, r2) == c2 * d) by {
        lemma_triple_linear_second(b2, a.m10, b0, a.m11, b1, a.m12, b2, r2);
        lemma_neg_mul(a.m11, a.m20 * d);
        lemma_minor_times(a.m10, a.m21, a.m11, a.m20, d);
    }
    // The first row, expanded.
    lemma_det_is_triple(ab);
    lemma_triple_linear(a.m00, b0, a.m01, b1, a.m02, b2, r1, r2);
    assert(det3(ab) == a.m00 * (c0 * d) + a.m01 * (-(c1 * d)) + a.m02 * (c2 * d));
    assert(a.m00 * (c0 * d) == (a.m00 * c0) * d) by {
        lemma_assoc(a.m00, c0, d);
    }
    assert(a.m01 * (-(c1 * d)) == -((a.m01 * c1) * d)) by {
        lemma_neg_mul(a.m01, c1 * d);
        lemma_assoc(a.m01, c1, d);
    }
    assert(a.m02 * (c2 * d) == (a.m02 * c2) * d) by {
        lemma_assoc(a.m02, c2, d);
    }
    assert((a.m00 * c0 - a.m01 * c1 + a.m02 * c2) * d == (a.m00 * c0) * d - (a.m01 * c1) * d + (
    a.m02 * c2) * d) by {
        lemma_dist3(a.m00 * c0, -(a.m01 * c1), a.m02 * c2, d);
        lemma_neg_mul(a.m01 * c1, d);
    }
}

/// The matrix of cofactors of `a`, transposed: column `j` is the cross
/// product of the two rows of `a` that follow row `j` in cyclic order.
pub open spec fn adjugate(a: Mat3<real>) -> Mat3<real> {
    let c0 = cross(row(a, 1), row(a, 2));
    let c1 = cross(row(a, 2), row(a, 0));
    let c2 = cross(row(a, 0), row(a, 1));
    Mat3 {
        m00: c0.x,
        m01: c1.x,
        m02: c2.x,
        m10: c0.y,
        m11: c1.y,
        m12: c2.y,
        m20: c0.z,
        m21: c1.z,
        m22: c2.z,
    }
}

/// The cross product `y × z`, written so that `x · (y × z)` is the triple
/// product term by term.
pub open spec fn cross(y: Col3<real>, z: Col3<real>) -> Col3<real> {
    Col3 { x: y.y * z.z - y.z * z.y, y: -(y.x * z.z - y.z * z.x), z: y.x * z.y - y.y * z.x }
}

/// A column times a cross product is the triple product.
proof fn lemma_dot_cross(x: Col3<real>, y: Col3<real>, z: Col3<real>)
    ensures
        x.x * cross(y, z).x + x.y * cross(y, z).y + x.z * cross(y, z).z == triple(x, y, z),
{
    lemma_neg_mul(x.y, y.x * z.z - y.z * z.x);
}

/// A matrix of determinant one times its adjugate is the identity.
pub proof fn lemma_adjugate(a: Mat3<real>)
    requires
        det3(a) == 1real,
    ensures
        product3(a, adjugate(a)) == identity3(),
{
    let r0 = row(a, 0);
    let r1 = row(a, 1);
    let r2 = row(a, 2);
    lemma_row_orders(a);
    lemma_dot_cross(r0, r1, r2);
    lemma_dot_cross(r0, r2, r0);
    lemma_dot_cross(r0, r0, r1);
    lemma_dot_cross(r1, r1, r2);
    lemma_dot_cross(r1, r2, r0);
    lemma_dot_cross(r1, r0, r1);
    lemma_dot_cross(r2, r1, r2);
    lemma_dot_cross(r2, r2, r0);
    lemma_dot_cross(r2, r0, r1);
}

/// The rows of a rotation are orthonormal as its columns are: the transpose
/// of a rotation is its inverse on both sides.
pub proof fn lemma_rotation_rows(a: Mat3<real>)
    requires
        is_rotation(a),
    ensures
        product3(a, a.transpose_spec()) == identity3(),
        adjugate(a) == a.transpose_spec(),
{
    let at = a.transpose_spec();
    let c = adjugate(a);
    // aᵗ = aᵗ·(a·c) = (aᵗ·a)·c = c.
    lemma_adjugate(a);
    lemma_product_associative(at, a, c);
    lemma_identity_product(at);
    lemma_identity_product(c);
}

/// The product of two rotations is a rotation.
pub proof fn lemma_product_of_rotations(a: Mat3<real>, b: Mat3<real>)
    requires
        is_rotation(a),
        is_rotation(b),
    ensures
        is_rotation(product3(a, b)),
{
    let at = a.transpose_spec();
    let bt = b.transpose_spec();
    let ab = product3(a, b);
    lemma_transpose_product(a, b);
    // (a·b)ᵗ·(a·b) = bᵗ·((aᵗ·a)·b) = bᵗ·b.
    assert(product3(ab.transpose_spec(), ab) == identity3()) by {
        lemma_product_associative(bt, at, ab);
        lemma_product_associative(at, a, b);
        lemma_identity_product(b);
    }
    lemma_det_product(a, b);
    lemma_mul_one(det3(b));
}

/// The transpose of a rotation is a rotation.
pub proof fn lemma_transpose_of_rotation(a: Mat3<real>)
    requires
        is_rotation(a),
    ensures
        is_rotation(a.transpose_spec()),
{
    lemma_rotation_rows(a);
    assert(a.transpose_spec().transpose_spec() == a);
    lemma_transpose_det(a);
}

} // verus!
