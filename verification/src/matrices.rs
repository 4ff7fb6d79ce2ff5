//! Matrices and columns of real numbers: what the matrices of the library
//! stand for where the scalar's arithmetic is exact.

use crate::linalg::{Col3, Mat3, Mat4};
use crate::ring::{
    lemma_assoc, lemma_comm, lemma_dist3, lemma_dist_sub, lemma_mul_one, lemma_mul_zero,
    lemma_neg_mul, lemma_neg_term, lemma_rearrange,
};
use vstd::prelude::*;

verus! {

/// The real 3×3 identity matrix.
pub open spec fn identity3() -> Mat3<real> {
    Mat3 {
        m00: 1real,
        m01: 0real,
        m02: 0real,
        m10: 0real,
        m11: 1real,
        m12: 0real,
        m20: 0real,
        m21: 0real,
        m22: 1real,
    }
}

/// The product of two real 3×3 matrices.
pub open spec fn product3(a: Mat3<real>, b: Mat3<real>) -> Mat3<real> {
    Mat3 {
        m00: a.m00 * b.m00 + a.m01 * b.m10 + a.m02 * b.m20,
        m01: a.m00 * b.m01 + a.m01 * b.m11 + a.m02 * b.m21,
        m02: a.m00 * b.m02 + a.m01 * b.m12 + a.m02 * b.m22,
        m10: a.m10 * b.m00 + a.m11 * b.m10 + a.m12 * b.m20,
        m11: a.m10 * b.m01 + a.m11 * b.m11 + a.m12 * b.m21,
        m12: a.m10 * b.m02 + a.m11 * b.m12 + a.m12 * b.m22,
        m20: a.m20 * b.m00 + a.m21 * b.m10 + a.m22 * b.m20,
        m21: a.m20 * b.m01 + a.m21 * b.m11 + a.m22 * b.m21,
        m22: a.m20 * b.m02 + a.m21 * b.m12 + a.m22 * b.m22,
    }
}

/// The entrywise sum of two real matrices.
pub open spec fn plus3(a: Mat3<real>, b: Mat3<real>) -> Mat3<real> {
    Mat3 {
        m00: a.m00 + b.m00,
        m01: a.m01 + b.m01,
        m02: a.m02 + b.m02,
        m10: a.m10 + b.m10,
        m11: a.m11 + b.m11,
        m12: a.m12 + b.m12,
        m20: a.m20 + b.m20,
        m21: a.m21 + b.m21,
        m22: a.m22 + b.m22,
    }
}

/// The real matrix `a`, every entry multiplied by `k`.
pub open spec fn scaled3(a: Mat3<real>, k: real) -> Mat3<real> {
    Mat3 {
        m00: a.m00 * k,
        m01: a.m01 * k,
        m02: a.m02 * k,
        m10: a.m10 * k,
        m11: a.m11 * k,
        m12: a.m12 * k,
        m20: a.m20 * k,
        m21: a.m21 * k,
        m22: a.m22 * k,
    }
}

/// The matrix `x·a + y·b + z·c`.
pub open spec fn combine3(
    x: real,
    a: Mat3<real>,
    y: real,
    b: Mat3<real>,
    z: real,
    c: Mat3<real>,
) -> Mat3<real> {
    Mat3 {
        m00: x * a.m00 + y * b.m00 + z * c.m00,
        m01: x * a.m01 + y * b.m01 + z * c.m01,
        m02: x * a.m02 + y * b.m02 + z * c.m02,
        m10: x * a.m10 + y * b.m10 + z * c.m10,
        m11: x * a.m11 + y * b.m11 + z * c.m11,
        m12: x * a.m12 + y * b.m12 + z * c.m12,
        m20: x * a.m20 + y * b.m20 + z * c.m20,
        m21: x * a.m21 + y * b.m21 + z * c.m21,
        m22: x * a.m22 + y * b.m22 + z * c.m22,
    }
}

/// The product of a real 3×3 matrix and a real column.
pub open spec fn apply3(a: Mat3<real>, u: Col3<real>) -> Col3<real> {
    Col3 {
        x: a.m00 * u.x + a.m01 * u.y + a.m02 * u.z,
        y: a.m10 * u.x + a.m11 * u.y + a.m12 * u.z,
        z: a.m20 * u.x + a.m21 * u.y + a.m22 * u.z,
    }
}

/// The sum of two real columns.
pub open spec fn sum3(a: Col3<real>, b: Col3<real>) -> Col3<real> {
    Col3 { x: a.x + b.x, y: a.y + b.y, z: a.z + b.z }
}

/// The column `u`, negated.
pub open spec fn neg3(u: Col3<real>) -> Col3<real> {
    Col3 { x: -u.x, y: -u.y, z: -u.z }
}

/// The column `x·p + y·q + z·r`.
pub open spec fn lin3(
    x: real,
    p: Col3<real>,
    y: real,
    q: Col3<real>,
    z: real,
    r: Col3<real>,
) -> Col3<real> {
    Col3 {
        x: x * p.x + y * q.x + z * r.x,
        y: x * p.y + y * q.y + z * r.y,
        z: x * p.z + y * q.z + z * r.z,
    }
}

/// The real skew-symmetric matrix of the column `u`, whose product with a
/// column `w` is the cross product `u × w`.
pub open spec fn skew3(u: Col3<real>) -> Mat3<real> {
    Mat3 {
        m00: 0real,
        m01: -u.z,
        m02: u.y,
        m10: u.z,
        m11: 0real,
        m12: -u.x,
        m20: -u.y,
        m21: u.x,
        m22: 0real,
    }
}

/// The rotation about the x axis by the angle with sine `s` and cosine `c`.
pub open spec fn turn_x(s: real, c: real) -> Mat3<real> {
    Mat3 {
        m00: 1real,
        m01: 0real,
        m02: 0real,
        m10: 0real,
        m11: c,
        m12: -s,
        m20: 0real,
        m21: s,
        m22: c,
    }
}

/// The rotation about the y axis by the angle with sine `s` and cosine `c`.
pub open spec fn turn_y(s: real, c: real) -> Mat3<real> {
    Mat3 {
        m00: c,
        m01: 0real,
        m02: s,
        m10: 0real,
        m11: 1real,
        m12: 0real,
        m20: -s,
        m21: 0real,
        m22: c,
    }
}

/// The rotation about the z axis by the angle with sine `s` and cosine `c`.
pub open spec fn turn_z(s: real, c: real) -> Mat3<real> {
    Mat3 {
        m00: c,
        m01: -s,
        m02: 0real,
        m10: s,
        m11: c,
        m12: 0real,
        m20: 0real,
        m21: 0real,
        m22: 1real,
    }
}

/// The determinant of a real 3×3 matrix.
pub open spec fn det3(a: Mat3<real>) -> real {
    a.m00 * (a.m11 * a.m22 - a.m12 * a.m21) - a.m01 * (a.m10 * a.m22 - a.m12 * a.m20) + a.m02 * (
    a.m10 * a.m21 - a.m11 * a.m20)
}

/// The real matrix `a` is a rotation: its columns are orthonormal, and its
/// determinant is one.
pub open spec fn is_rotation(a: Mat3<real>) -> bool {
    &&& product3(a.transpose_spec(), a) == identity3()
    &&& det3(a) == 1real
}

/// The real 4×4 identity matrix.
pub open spec fn identity4() -> Mat4<real> {
    Mat4 {
        m00: 1real,
        m01: 0real,
        m02: 0real,
        m03: 0real,
        m10: 0real,
        m11: 1real,
        m12: 0real,
        m13: 0real,
        m20: 0real,
        m21: 0real,
        m22: 1real,
        m23: 0real,
        m30: 0real,
        m31: 0real,
        m32: 0real,
        m33: 1real,
    }
}

/// The product of two real 4×4 matrices.
pub open spec fn product4(a: Mat4<real>, b: Mat4<real>) -> Mat4<real> {
    Mat4 {
        m00: a.m00 * b.m00 + a.m01 * b.m10 + a.m02 * b.m20 + a.m03 * b.m30,
        m01: a.m00 * b.m01 + a.m01 * b.m11 + a.m02 * b.m21 + a.m03 * b.m31,
        m02: a.m00 * b.m02 + a.m01 * b.m12 + a.m02 * b.m22 + a.m03 * b.m32,
        m03: a.m00 * b.m03 + a.m01 * b.m13 + a.m02 * b.m23 + a.m03 * b.m33,
        m10: a.m10 * b.m00 + a.m11 * b.m10 + a.m12 * b.m20 + a.m13 * b.m30,
        m11: a.m10 * b.m01 + a.m11 * b.m11 + a.m12 * b.m21 + a.m13 * b.m31,
        m12: a.m10 * b.m02 + a.m11 * b.m12 + a.m12 * b.m22 + a.m13 * b.m32,
        m13: a.m10 * b.m03 + a.m11 * b.m13 + a.m12 * b.m23 + a.m13 * b.m33,
        m20: a.m20 * b.m00 + a.m21 * b.m10 + a.m22 * b.m20 + a.m23 * b.m30,
        m21: a.m20 * b.m01 + a.m21 * b.m11 + a.m22 * b.m21 + a.m23 * b.m31,
        m22: a.m20 * b.m02 + a.m21 * b.m12 + a.m22 * b.m22 + a.m23 * b.m32,
        m23: a.m20 * b.m03 + a.m21 * b.m13 + a.m22 * b.m23 + a.m23 * b.m33,
        m30: a.m30 * b.m00 + a.m31 * b.m10 + a.m32 * b.m20 + a.m33 * b.m30,
        m31: a.m30 * b.m01 + a.m31 * b.m11 + a.m32 * b.m21 + a.m33 * b.m31,
        m32: a.m30 * b.m02 + a.m31 * b.m12 + a.m32 * b.m22 + a.m33 * b.m32,
        m33: a.m30 * b.m03 + a.m31 * b.m13 + a.m32 * b.m23 + a.m33 * b.m33,
    }
}

/// The last row of the real matrix `a` is `(0, 0, 0, 1)`.
pub open spec fn last_row_fixed(a: Mat4<real>) -> bool {
    a.m30 == 0real && a.m31 == 0real && a.m32 == 0real && a.m33 == 1real
}

/// The real matrix `a` is a rigid motion `[[R, t], [0, 1]]`: its upper left
/// block is a rotation and its last row is `(0, 0, 0, 1)`.
pub open spec fn is_rigid(a: Mat4<real>) -> bool {
    is_rotation(a.rot_spec()) && last_row_fixed(a)
}

/// A sum of three products, each with a sum of three as a factor, may be
/// taken in either order:
/// `Σⱼ (Σₖ fₖ·gₖⱼ)·uⱼ = Σₖ fₖ·(Σⱼ gₖⱼ·uⱼ)`.
pub proof fn lemma_exchange(f: Col3<real>, g: Mat3<real>, u: Col3<real>)
    ensures
        (f.x * g.m00 + f.y * g.m10 + f.z * g.m20) * u.x + (f.x * g.m01 + f.y * g.m11 + f.z
            * g.m21) * u.y + (f.x * g.m02 + f.y * g.m12 + f.z * g.m22) * u.z == f.x * (g.m00 * u.x
            + g.m01 * u.y + g.m02 * u.z) + f.y * (g.m10 * u.x + g.m11 * u.y + g.m12 * u.z) + f.z
            * (g.m20 * u.x + g.m21 * u.y + g.m22 * u.z),
{
    assert((f.x * g.m00 + f.y * g.m10 + f.z * g.m20) * u.x == f.x * (g.m00 * u.x) + f.y * (g.m10
        * u.x) + f.z * (g.m20 * u.x)) by {
        lemma_dist3(f.x * g.m00, f.y * g.m10, f.z * g.m20, u.x);
        lemma_assoc(f.x, g.m00, u.x);
        lemma_assoc(f.y, g.m10, u.x);
        lemma_assoc(f.z, g.m20, u.x);
    }
    assert((f.x * g.m01 + f.y * g.m11 + f.z * g.m21) * u.y == f.x * (g.m01 * u.y) + f.y * (g.m11
        * u.y) + f.z * (g.m21 * u.y)) by {
        lemma_dist3(f.x * g.m01, f.y * g.m11, f.z * g.m21, u.y);
        lemma_assoc(f.x, g.m01, u.y);
        lemma_assoc(f.y, g.m11, u.y);
        lemma_assoc(f.z, g.m21, u.y);
    }
    assert((f.x * g.m02 + f.y * g.m12 + f.z * g.m22) * u.z == f.x * (g.m02 * u.z) + f.y * (g.m12
        * u.z) + f.z * (g.m22 * u.z)) by {
        lemma_dist3(f.x * g.m02, f.y * g.m12, f.z * g.m22, u.z);
        lemma_assoc(f.x, g.m02, u.z);
        lemma_assoc(f.y, g.m12, u.z);
        lemma_assoc(f.z, g.m22, u.z);
    }
    assert(f.x * (g.m00 * u.x + g.m01 * u.y + g.m02 * u.z) == f.x * (g.m00 * u.x) + f.x * (g.m01
        * u.y) + f.x * (g.m02 * u.z)) by {
        lemma_dist3(g.m00 * u.x, g.m01 * u.y, g.m02 * u.z, f.x);
        lemma_comm(g.m00 * u.x + g.m01 * u.y + g.m02 * u.z, f.x);
        lemma_comm(g.m00 * u.x, f.x);
        lemma_comm(g.m01 * u.y, f.x);
        lemma_comm(g.m02 * u.z, f.x);
    }
    assert(f.y * (g.m10 * u.x + g.m11 * u.y + g.m12 * u.z) == f.y * (g.m10 * u.x) + f.y * (g.m11
        * u.y) + f.y * (g.m12 * u.z)) by {
        lemma_dist3(g.m10 * u.x, g.m11 * u.y, g.m12 * u.z, f.y);
        lemma_comm(g.m10 * u.x + g.m11 * u.y + g.m12 * u.z, f.y);
        lemma_comm(g.m10 * u.x, f.y);
        lemma_comm(g.m11 * u.y, f.y);
        lemma_comm(g.m12 * u.z, f.y);
    }
    assert(f.z * (g.m20 * u.x + g.m21 * u.y + g.m22 * u.z) == f.z * (g.m20 * u.x) + f.z * (g.m21
        * u.y) + f.z * (g.m22 * u.z)) by {
        lemma_dist3(g.m20 * u.x, g.m21 * u.y, g.m22 * u.z, f.z);
        lemma_comm(g.m20 * u.x + g.m21 * u.y + g.m22 * u.z, f.z);
        lemma_comm(g.m20 * u.x, f.z);
        lemma_comm(g.m21 * u.y, f.z);
        lemma_comm(g.m22 * u.z, f.z);
    }
}

/// The product of real matrices is associative.
pub proof fn lemma_product_associative(a: Mat3<real>, b: Mat3<real>, c: Mat3<real>)
    ensures
        product3(product3(a, b), c) == product3(a, product3(b, c)),
{
    let r0 = Col3 { x: a.m00, y: a.m01, z: a.m02 };
    let r1 = Col3 { x: a.m10, y: a.m11, z: a.m12 };
    let r2 = Col3 { x: a.m20, y: a.m21, z: a.m22 };
    let c0 = Col3 { x: c.m00, y: c.m10, z: c.m20 };
    let c1 = Col3 { x: c.m01, y: c.m11, z: c.m21 };
    let c2 = Col3 { x: c.m02, y: c.m12, z: c.m22 };
    lemma_exchange(r0, b, c0);
    lemma_exchange(r0, b, c1);
    lemma_exchange(r0, b, c2);
    lemma_exchange(r1, b, c0);
    lemma_exchange(r1, b, c1);
    lemma_exchange(r1, b, c2);
    lemma_exchange(r2, b, c0);
    lemma_exchange(r2, b, c1);
    lemma_exchange(r2, b, c2);
}

/// A product of matrices acts as its factors do in turn.
pub proof fn lemma_apply_product(a: Mat3<real>, b: Mat3<real>, u: Col3<real>)
    ensures
        apply3(product3(a, b), u) == apply3(a, apply3(b, u)),
{
    lemma_exchange(Col3 { x: a.m00, y: a.m01, z: a.m02 }, b, u);
    lemma_exchange(Col3 { x: a.m10, y: a.m11, z: a.m12 }, b, u);
    lemma_exchange(Col3 { x: a.m20, y: a.m21, z: a.m22 }, b, u);
}

/// A combination of matrices acts as the combination of what they yield.
pub proof fn lemma_apply_combination(
    x: real,
    a: Mat3<real>,
    y: real,
    b: Mat3<real>,
    z: real,
    c: Mat3<real>,
    u: Col3<real>,
)
    ensures
        apply3(combine3(x, a, y, b, z, c), u) == lin3(
            x,
            apply3(a, u),
            y,
            apply3(b, u),
            z,
            apply3(c, u),
        ),
{
    let f = Col3 { x, y, z };
    lemma_exchange(
        f,
        Mat3 {
            m00: a.m00,
            m01: a.m01,
            m02: a.m02,
            m10: b.m00,
            m11: b.m01,
            m12: b.m02,
            m20: c.m00,
            m21: c.m01,
            m22: c.m02,
        },
        u,
    );
    lemma_exchange(
        f,
        Mat3 {
            m00: a.m10,
            m01: a.m11,
            m02: a.m12,
            m10: b.m10,
            m11: b.m11,
            m12: b.m12,
            m20: c.m10,
            m21: c.m11,
            m22: c.m12,
        },
        u,
    );
    lemma_exchange(
        f,
        Mat3 {
            m00: a.m20,
            m01: a.m21,
            m02: a.m22,
            m10: b.m20,
            m11: b.m21,
            m12: b.m22,
            m20: c.m20,
            m21: c.m21,
            m22: c.m22,
        },
        u,
    );
}

/// A matrix acts on a combination of columns as the combination of what it
/// yields.
pub proof fn lemma_apply_lin(
    m: Mat3<real>,
    x: real,
    p: Col3<real>,
    y: real,
    q: Col3<real>,
    z: real,
    r: Col3<real>,
)
    ensures
        apply3(m, lin3(x, p, y, q, z, r)) == lin3(
            x,
            apply3(m, p),
            y,
            apply3(m, q),
            z,
            apply3(m, r),
        ),
{
    let f = Col3 { x, y, z };
    let g = Mat3 {
        m00: p.x,
        m01: p.y,
        m02: p.z,
        m10: q.x,
        m11: q.y,
        m12: q.z,
        m20: r.x,
        m21: r.y,
        m22: r.z,
    };
    let v = lin3(x, p, y, q, z, r);
    assert(m.m00 * v.x + m.m01 * v.y + m.m02 * v.z == x * (m.m00 * p.x + m.m01 * p.y + m.m02 * p.z)
        + y * (m.m00 * q.x + m.m01 * q.y + m.m02 * q.z) + z * (m.m00 * r.x + m.m01 * r.y + m.m02
        * r.z)) by {
        lemma_exchange(f, g, Col3 { x: m.m00, y: m.m01, z: m.m02 });
        lemma_comm(v.x, m.m00);
        lemma_comm(v.y, m.m01);
        lemma_comm(v.z, m.m02);
        lemma_comm(p.x, m.m00);
        lemma_comm(p.y, m.m01);
        lemma_comm(p.z, m.m02);
        lemma_comm(q.x, m.m00);
        lemma_comm(q.y, m.m01);
        lemma_comm(q.z, m.m02);
        lemma_comm(r.x, m.m00);
        lemma_comm(r.y, m.m01);
        lemma_comm(r.z, m.m02);
    }
    assert(m.m10 * v.x + m.m11 * v.y + m.m12 * v.z == x * (m.m10 * p.x + m.m11 * p.y + m.m12 * p.z)
        + y * (m.m10 * q.x + m.m11 * q.y + m.m12 * q.z) + z * (m.m10 * r.x + m.m11 * r.y + m.m12
        * r.z)) by {
        lemma_exchange(f, g, Col3 { x: m.m10, y: m.m11, z: m.m12 });
        lemma_comm(v.x, m.m10);
        lemma_comm(v.y, m.m11);
        lemma_comm(v.z, m.m12);
        lemma_comm(p.x, m.m10);
        lemma_comm(p.y, m.m11);
        lemma_comm(p.z, m.m12);
        lemma_comm(q.x, m.m10);
        lemma_comm(q.y, m.m11);
        lemma_comm(q.z, m.m12);
        lemma_comm(r.x, m.m10);
        lemma_comm(r.y, m.m11);
        lemma_comm(r.z, m.m12);
    }
    assert(m.m20 * v.x + m.m21 * v.y + m.m22 * v.z == x * (m.m20 * p.x + m.m21 * p.y + m.m22 * p.z)
        + y * (m.m20 * q.x + m.m21 * q.y + m.m22 * q.z) + z * (m.m20 * r.x + m.m21 * r.y + m.m22
        * r.z)) by {
        lemma_exchange(f, g, Col3 { x: m.m20, y: m.m21, z: m.m22 });
        lemma_comm(v.x, m.m20);
        lemma_comm(v.y, m.m21);
        lemma_comm(v.z, m.m22);
        lemma_comm(p.x, m.m20);
        lemma_comm(p.y, m.m21);
        lemma_comm(p.z, m.m22);
        lemma_comm(q.x, m.m20);
        lemma_comm(q.y, m.m21);
        lemma_comm(q.z, m.m22);
        lemma_comm(r.x, m.m20);
        lemma_comm(r.y, m.m21);
        lemma_comm(r.z, m.m22);
    }
}

/// A matrix sends the negated column to the negated image.
pub proof fn lemma_apply_neg(m: Mat3<real>, u: Col3<real>)
    ensures
        apply3(m, neg3(u)) == neg3(apply3(m, u)),
{
    lemma_neg_mul(m.m00, u.x);
    lemma_neg_mul(m.m01, u.y);
    lemma_neg_mul(m.m02, u.z);
    lemma_neg_mul(m.m10, u.x);
    lemma_neg_mul(m.m11, u.y);
    lemma_neg_mul(m.m12, u.z);
    lemma_neg_mul(m.m20, u.x);
    lemma_neg_mul(m.m21, u.y);
    lemma_neg_mul(m.m22, u.z);
}

/// A matrix sends a scaled column to the scaled image.
pub proof fn lemma_apply_scaled(m: Mat3<real>, p: Col3<real>, t: real)
    ensures
        apply3(m, Col3 { x: p.x * t, y: p.y * t, z: p.z * t }) == (Col3 {
            x: apply3(m, p).x * t,
            y: apply3(m, p).y * t,
            z: apply3(m, p).z * t,
        }),
{
    lemma_apply_lin(m, t, p, 0real, p, 0real, p);
    lemma_comm(p.x, t);
    lemma_comm(p.y, t);
    lemma_comm(p.z, t);
    lemma_comm(apply3(m, p).x, t);
    lemma_comm(apply3(m, p).y, t);
    lemma_comm(apply3(m, p).z, t);
}

/// A real matrix and its transpose have the same determinant.
pub proof fn lemma_transpose_det(a: Mat3<real>)
    ensures
        det3(a.transpose_spec()) == det3(a),
{
    lemma_dist_sub(a.m00, a.m11 * a.m22, a.m12 * a.m21);
    lemma_dist_sub(a.m01, a.m10 * a.m22, a.m12 * a.m20);
    lemma_dist_sub(a.m02, a.m10 * a.m21, a.m11 * a.m20);
    lemma_dist_sub(a.m00, a.m11 * a.m22, a.m21 * a.m12);
    lemma_dist_sub(a.m10, a.m01 * a.m22, a.m21 * a.m02);
    lemma_dist_sub(a.m20, a.m01 * a.m12, a.m11 * a.m02);
    lemma_rearrange(a.m01, a.m10, a.m22);
    lemma_rearrange(a.m01, a.m12, a.m20);
    lemma_rearrange(a.m02, a.m10, a.m21);
    lemma_rearrange(a.m02, a.m11, a.m20);
}

/// One row of `R · ((−Rᵗ) · p)`. With `a` a row of `R`, `b` the whole of
/// `R` and `x = (−Rᵗ) · p`, the product `a · x` is `−(d · p)`, where `d`
/// holds the products of `a` with the rows of `R`.
pub proof fn lemma_row_of_inverse(a: Col3<real>, b: Mat3<real>, p: Col3<real>)
    ensures
        ({
            let x = Col3 {
                x: (-b.m00) * p.x + (-b.m10) * p.y + (-b.m20) * p.z,
                y: (-b.m01) * p.x + (-b.m11) * p.y + (-b.m21) * p.z,
                z: (-b.m02) * p.x + (-b.m12) * p.y + (-b.m22) * p.z,
            };
            let d = Col3 {
                x: a.x * b.m00 + a.y * b.m01 + a.z * b.m02,
                y: a.x * b.m10 + a.y * b.m11 + a.z * b.m12,
                z: a.x * b.m20 + a.y * b.m21 + a.z * b.m22,
            };
            a.x * x.x + a.y * x.y + a.z * x.z == -(d.x * p.x + d.y * p.y + d.z * p.z)
        }),
{
    let x0 = (-b.m00) * p.x + (-b.m10) * p.y + (-b.m20) * p.z;
    let x1 = (-b.m01) * p.x + (-b.m11) * p.y + (-b.m21) * p.z;
    let x2 = (-b.m02) * p.x + (-b.m12) * p.y + (-b.m22) * p.z;
    let d0 = a.x * b.m00 + a.y * b.m01 + a.z * b.m02;
    let d1 = a.x * b.m10 + a.y * b.m11 + a.z * b.m12;
    let d2 = a.x * b.m20 + a.y * b.m21 + a.z * b.m22;
    assert(a.x * x0 == -((a.x * b.m00) * p.x) - ((a.x * b.m10) * p.y) - ((a.x * b.m20) * p.z)) by {
        lemma_dist3((-b.m00) * p.x, (-b.m10) * p.y, (-b.m20) * p.z, a.x);
        lemma_neg_term(b.m00, p.x, a.x);
        lemma_neg_term(b.m10, p.y, a.x);
        lemma_neg_term(b.m20, p.z, a.x);
    }
    assert(a.y * x1 == -((a.y * b.m01) * p.x) - ((a.y * b.m11) * p.y) - ((a.y * b.m21) * p.z)) by {
        lemma_dist3((-b.m01) * p.x, (-b.m11) * p.y, (-b.m21) * p.z, a.y);
        lemma_neg_term(b.m01, p.x, a.y);
        lemma_neg_term(b.m11, p.y, a.y);
        lemma_neg_term(b.m21, p.z, a.y);
    }
    assert(a.z * x2 == -((a.z * b.m02) * p.x) - ((a.z * b.m12) * p.y) - ((a.z * b.m22) * p.z)) by {
        lemma_dist3((-b.m02) * p.x, (-b.m12) * p.y, (-b.m22) * p.z, a.z);
        lemma_neg_term(b.m02, p.x, a.z);
        lemma_neg_term(b.m12, p.y, a.z);
        lemma_neg_term(b.m22, p.z, a.z);
    }
    assert(d0 * p.x == (a.x * b.m00) * p.x + (a.y * b.m01) * p.x + (a.z * b.m02) * p.x) by {
        lemma_dist3(a.x * b.m00, a.y * b.m01, a.z * b.m02, p.x);
    }
    assert(d1 * p.y == (a.x * b.m10) * p.y + (a.y * b.m11) * p.y + (a.z * b.m12) * p.y) by {
        lemma_dist3(a.x * b.m10, a.y * b.m11, a.z * b.m12, p.y);
    }
    assert(d2 * p.z == (a.x * b.m20) * p.z + (a.y * b.m21) * p.z + (a.z * b.m22) * p.z) by {
        lemma_dist3(a.x * b.m20, a.y * b.m21, a.z * b.m22, p.z);
    }
}

/// The rotations about the coordinate axes are rotations.
pub proof fn lemma_turns_are_rotations(s: real, c: real)
    requires
        s * s + c * c == 1real,
    ensures
        is_rotation(turn_x(s, c)),
        is_rotation(turn_y(s, c)),
        is_rotation(turn_z(s, c)),
{
    lemma_neg_mul(s, s);
    lemma_neg_mul(-s, s);
    lemma_neg_mul(s, c);
    lemma_neg_mul(c, s);
    lemma_comm(s, c);
    lemma_comm(-s, c);
    lemma_comm(-s, s);
    lemma_mul_zero(s);
    lemma_mul_zero(c);
    lemma_mul_zero(-s);
    lemma_mul_one(s);
    lemma_mul_one(c);
    lemma_mul_one(-s);
    lemma_mul_one(c * c - (-s) * s);
    lemma_mul_one(c * c - s * (-s));
    lemma_dist_sub(c, c, 0real);
    lemma_dist_sub(s, 0real, -s);
    lemma_dist_sub(-s, s, 0real);
}

/// The transpose of a product is the product of the transposes, the other
/// way round.
pub proof fn lemma_transpose_product(a: Mat3<real>, b: Mat3<real>)
    ensures
        product3(a, b).transpose_spec() == product3(b.transpose_spec(), a.transpose_spec()),
{
    lemma_comm(a.m00, b.m00);
    lemma_comm(a.m01, b.m10);
    lemma_comm(a.m02, b.m20);
    lemma_comm(a.m00, b.m01);
    lemma_comm(a.m01, b.m11);
    lemma_comm(a.m02, b.m21);
    lemma_comm(a.m00, b.m02);
    lemma_comm(a.m01, b.m12);
    lemma_comm(a.m02, b.m22);
    lemma_comm(a.m10, b.m00);
    lemma_comm(a.m11, b.m10);
    lemma_comm(a.m12, b.m20);
    lemma_comm(a.m10, b.m01);
    lemma_comm(a.m11, b.m11);
    lemma_comm(a.m12, b.m21);
    lemma_comm(a.m10, b.m02);
    lemma_comm(a.m11, b.m12);
    lemma_comm(a.m12, b.m22);
    lemma_comm(a.m20, b.m00);
    lemma_comm(a.m21, b.m10);
    lemma_comm(a.m22, b.m20);
    lemma_comm(a.m20, b.m01);
    lemma_comm(a.m21, b.m11);
    lemma_comm(a.m22, b.m21);
    lemma_comm(a.m20, b.m02);
    lemma_comm(a.m21, b.m12);
    lemma_comm(a.m22, b.m22);
}

/// The identity matrix is neutral on both sides.
pub proof fn lemma_identity_product(a: Mat3<real>)
    ensures
        product3(identity3(), a) == a,
        product3(a, identity3()) == a,
{
}

} // verus!
