//! Small dense vectors and matrices over a [`Real`] scalar.
//!
//! Every operation is written out entry by entry. Sums of products are taken
//! from left to right, so that a contract names one definite expression.

use crate::scalar::Real;
use vstd::prelude::*;

verus! {

/// `a0*b0 + a1*b1 + a2*b2`, summed from the left.
pub open spec fn dot3_spec<T: Real>(a0: T, a1: T, a2: T, b0: T, b1: T, b2: T) -> T {
    a0.mul_spec(b0).add_spec(a1.mul_spec(b1)).add_spec(a2.mul_spec(b2))
}

/// Computes `a0*b0 + a1*b1 + a2*b2`.
pub fn dot3<T: Real>(a0: T, a1: T, a2: T, b0: T, b1: T, b2: T) -> (r: T)
    ensures
        r == dot3_spec(a0, a1, a2, b0, b1, b2),
{
    a0.mul(b0).add(a1.mul(b1)).add(a2.mul(b2))
}

/// `a0*b0 + a1*b1 + a2*b2 + a3*b3`, summed from the left.
pub open spec fn dot4_spec<T: Real>(a0: T, a1: T, a2: T, a3: T, b0: T, b1: T, b2: T, b3: T) -> T {
    dot3_spec(a0, a1, a2, b0, b1, b2).add_spec(a3.mul_spec(b3))
}

/// Computes `a0*b0 + a1*b1 + a2*b2 + a3*b3`.
pub fn dot4<T: Real>(a0: T, a1: T, a2: T, a3: T, b0: T, b1: T, b2: T, b3: T) -> (r: T)
    ensures
        r == dot4_spec(a0, a1, a2, a3, b0, b1, b2, b3),
{
    dot3(a0, a1, a2, b0, b1, b2).add(a3.mul(b3))
}

/// A column of three scalars.
#[derive(Clone, Copy, Debug, PartialEq)]
pub struct Col3<T> {
    pub x: T,
    pub y: T,
    pub z: T,
}

impl<T: Real> Col3<T> {
    /// The column `(x, y, z)`.
    pub fn new(x: T, y: T, z: T) -> (r: Self)
        ensures
            r == (Col3 { x, y, z }),
    {
        Col3 { x, y, z }
    }

    /// The column of zeros.
    pub open spec fn zeros_spec() -> Self {
        Col3 { x: T::zero_spec(), y: T::zero_spec(), z: T::zero_spec() }
    }

    /// Builds the column of zeros.
    pub fn zeros() -> (r: Self)
        ensures
            r == Self::zeros_spec(),
    {
        Col3 { x: T::zero(), y: T::zero(), z: T::zero() }
    }

    /// Every component multiplied by `k`.
    pub open spec fn scale_spec(self, k: T) -> Self {
        Col3 { x: self.x.mul_spec(k), y: self.y.mul_spec(k), z: self.z.mul_spec(k) }
    }

    /// Multiplies every component by `k`.
    pub fn scale(self, k: T) -> (r: Self)
        ensures
            r == self.scale_spec(k),
    {
        Col3 { x: self.x.mul(k), y: self.y.mul(k), z: self.z.mul(k) }
    }

    /// Every component divided by `k`.
    pub open spec fn div_spec(self, k: T) -> Self {
        Col3 { x: self.x.div_spec(k), y: self.y.div_spec(k), z: self.z.div_spec(k) }
    }

    /// Divides every component by `k`.
    pub fn div(self, k: T) -> (r: Self)
        ensures
            r == self.div_spec(k),
    {
        Col3 { x: self.x.div(k), y: self.y.div(k), z: self.z.div(k) }
    }

    /// The components as a sequence `[x, y, z]`.
    pub open spec fn to_seq(self) -> Seq<T> {
        seq![self.x, self.y, self.z]
    }
}

/// A 3×3 matrix; `mij` is the entry in row `i` and column `j`.
#[derive(Clone, Copy, Debug, PartialEq)]
pub struct Mat3<T> {
    pub m00: T,
    pub m01: T,
    pub m02: T,
    pub m10: T,
    pub m11: T,
    pub m12: T,
    pub m20: T,
    pub m21: T,
    pub m22: T,
}

impl<T> Mat3<T> {
    /// The transpose.
    pub open spec fn transpose_spec(self) -> Self {
        Mat3 {
            m00: self.m00,
            m01: self.m10,
            m02: self.m20,
            m10: self.m01,
            m11: self.m11,
            m12: self.m21,
            m20: self.m02,
            m21: self.m12,
            m22: self.m22,
        }
    }
}

impl<T: Real> Mat3<T> {
    /// The matrix with the given entries, listed row by row.
    pub fn new(m00: T, m01: T, m02: T, m10: T, m11: T, m12: T, m20: T, m21: T, m22: T) -> (r:
        Self)
        ensures
            r == (Mat3 { m00, m01, m02, m10, m11, m12, m20, m21, m22 }),
    {
        Mat3 { m00, m01, m02, m10, m11, m12, m20, m21, m22 }
    }

    /// The matrix whose entries are the first nine items of `s`, listed
    /// column by column.
    pub open spec fn from_column_seq(s: Seq<T>) -> Self {
        Mat3 {
            m00: s[0],
            m10: s[1],
            m20: s[2],
            m01: s[3],
            m11: s[4],
            m21: s[5],
            m02: s[6],
            m12: s[7],
            m22: s[8],
        }
    }

    /// Reads a matrix from the first nine items of `val`, listed column by
    /// column.
    pub fn from_column_slice(val: &[T]) -> (r: Self)
        requires
            val@.len() >= 9,
        ensures
            r == Self::from_column_seq(val@),
    {
        Mat3 {
            m00: val[0],
            m10: val[1],
            m20: val[2],
            m01: val[3],
            m11: val[4],
            m21: val[5],
            m02: val[6],
            m12: val[7],
            m22: val[8],
        }
    }

    /// The identity matrix.
    pub open spec fn identity_spec() -> Self {
        let o = T::one_spec();
        let z = T::zero_spec();
        Mat3 { m00: o, m01: z, m02: z, m10: z, m11: o, m12: z, m20: z, m21: z, m22: o }
    }

    /// Builds the identity matrix.
    pub fn identity() -> (r: Self)
        ensures
            r == Self::identity_spec(),
    {
        let o = T::one();
        let z = T::zero();
        Mat3 { m00: o, m01: z, m02: z, m10: z, m11: o, m12: z, m20: z, m21: z, m22: o }
    }

    /// Transposes the matrix.
    pub fn transpose(self) -> (r: Self)
        ensures
            r == self.transpose_spec(),
    {
        Mat3 {
            m00: self.m00,
            m01: self.m10,
            m02: self.m20,
            m10: self.m01,
            m11: self.m11,
            m12: self.m21,
            m20: self.m02,
            m21: self.m12,
            m22: self.m22,
        }
    }

    /// The sum of the diagonal, taken from the top.
    pub open spec fn trace_spec(self) -> T {
        self.m00.add_spec(self.m11).add_spec(self.m22)
    }

    /// Sums the diagonal.
    pub fn trace(self) -> (r: T)
        ensures
            r == self.trace_spec(),
    {
        self.m00.add(self.m11).add(self.m22)
    }

    /// The entrywise sum.
    pub open spec fn add_spec(self, o: Self) -> Self {
        Mat3 {
            m00: self.m00.add_spec(o.m00),
            m01: self.m01.add_spec(o.m01),
            m02: self.m02.add_spec(o.m02),
            m10: self.m10.add_spec(o.m10),
            m11: self.m11.add_spec(o.m11),
            m12: self.m12.add_spec(o.m12),
            m20: self.m20.add_spec(o.m20),
            m21: self.m21.add_spec(o.m21),
            m22: self.m22.add_spec(o.m22),
        }
    }

    /// Adds entry by entry.
    pub fn add(self, o: Self) -> (r: Self)
        ensures
            r == self.add_spec(o),
    {
        Mat3 {
            m00: self.m00.add(o.m00),
            m01: self.m01.add(o.m01),
            m02: self.m02.add(o.m02),
            m10: self.m10.add(o.m10),
            m11: self.m11.add(o.m11),
            m12: self.m12.add(o.m12),
            m20: self.m20.add(o.m20),
            m21: self.m21.add(o.m21),
            m22: self.m22.add(o.m22),
        }
    }

    /// The entrywise difference.
    pub open spec fn sub_spec(self, o: Self) -> Self {
        Mat3 {
            m00: self.m00.sub_spec(o.m00),
            m01: self.m01.sub_spec(o.m01),
            m02: self.m02.sub_spec(o.m02),
            m10: self.m10.sub_spec(o.m10),
            m11: self.m11.sub_spec(o.m11),
            m12: self.m12.sub_spec(o.m12),
            m20: self.m20.sub_spec(o.m20),
            m21: self.m21.sub_spec(o.m21),
            m22: self.m22.sub_spec(o.m22),
        }
    }

    /// Subtracts entry by entry.
    pub fn sub(self, o: Self) -> (r: Self)
        ensures
            r == self.sub_spec(o),
    {
        Mat3 {
            m00: self.m00.sub(o.m00),
            m01: self.m01.sub(o.m01),
            m02: self.m02.sub(o.m02),
            m10: self.m10.sub(o.m10),
            m11: self.m11.sub(o.m11),
            m12: self.m12.sub(o.m12),
            m20: self.m20.sub(o.m20),
            m21: self.m21.sub(o.m21),
            m22: self.m22.sub(o.m22),
        }
    }

    /// Every entry negated.
    pub open spec fn neg_spec(self) -> Self {
        Mat3 {
            m00: self.m00.neg_spec(),
            m01: self.m01.neg_spec(),
            m02: self.m02.neg_spec(),
            m10: self.m10.neg_spec(),
            m11: self.m11.neg_spec(),
            m12: self.m12.neg_spec(),
            m20: self.m20.neg_spec(),
            m21: self.m21.neg_spec(),
            m22: self.m22.neg_spec(),
        }
    }

    /// Negates every entry.
    pub fn neg(self) -> (r: Self)
        ensures
            r == self.neg_spec(),
    {
        Mat3 {
            m00: self.m00.neg(),
            m01: self.m01.neg(),
            m02: self.m02.neg(),
            m10: self.m10.neg(),
            m11: self.m11.neg(),
            m12: self.m12.neg(),
            m20: self.m20.neg(),
            m21: self.m21.neg(),
            m22: self.m22.neg(),
        }
    }

    /// Every entry multiplied by `k`.
    pub open spec fn scale_spec(self, k: T) -> Self {
        Mat3 {
            m00: self.m00.mul_spec(k),
            m01: self.m01.mul_spec(k),
            m02: self.m02.mul_spec(k),
            m10: self.m10.mul_spec(k),
            m11: self.m11.mul_spec(k),
            m12: self.m12.mul_spec(k),
            m20: self.m20.mul_spec(k),
            m21: self.m21.mul_spec(k),
            m22: self.m22.mul_spec(k),
        }
    }

    /// Multiplies every entry by `k`.
    pub fn scale(self, k: T) -> (r: Self)
        ensures
            r == self.scale_spec(k),
    {
        Mat3 {
            m00: self.m00.mul(k),
            m01: self.m01.mul(k),
            m02: self.m02.mul(k),
            m10: self.m10.mul(k),
            m11: self.m11.mul(k),
            m12: self.m12.mul(k),
            m20: self.m20.mul(k),
            m21: self.m21.mul(k),
            m22: self.m22.mul(k),
        }
    }

    /// Every entry divided by `k`.
    pub open spec fn div_spec(self, k: T) -> Self {
        Mat3 {
            m00: self.m00.div_spec(k),
            m01: self.m01.div_spec(k),
            m02: self.m02.div_spec(k),
            m10: self.m10.div_spec(k),
            m11: self.m11.div_spec(k),
            m12: self.m12.div_spec(k),
            m20: self.m20.div_spec(k),
            m21: self.m21.div_spec(k),
            m22: self.m22.div_spec(k),
        }
    }

    /// Divides every entry by `k`.
    pub fn div(self, k: T) -> (r: Self)
        ensures
            r == self.div_spec(k),
    {
        Mat3 {
            m00: self.m00.div(k),
            m01: self.m01.div(k),
            m02: self.m02.div(k),
            m10: self.m10.div(k),
            m11: self.m11.div(k),
            m12: self.m12.div(k),
            m20: self.m20.div(k),
            m21: self.m21.div(k),
            m22: self.m22.div(k),
        }
    }

    /// The matrix product `self · o`: entry `(i, j)` is row `i` of `self`
    /// times column `j` of `o`.
    pub open spec fn mat_mul_spec(self, o: Self) -> Self {
        Mat3 {
            m00: dot3_spec(self.m00, self.m01, self.m02, o.m00, o.m10, o.m20),
            m01: dot3_spec(self.m00, self.m01, self.m02, o.m01, o.m11, o.m21),
            m02: dot3_spec(self.m00, self.m01, self.m02, o.m02, o.m12, o.m22),
            m10: dot3_spec(self.m10, self.m11, self.m12, o.m00, o.m10, o.m20),
            m11: dot3_spec(self.m10, self.m11, self.m12, o.m01, o.m11, o.m21),
            m12: dot3_spec(self.m10, self.m11, self.m12, o.m02, o.m12, o.m22),
            m20: dot3_spec(self.m20, self.m21, self.m22, o.m00, o.m10, o.m20),
            m21: dot3_spec(self.m20, self.m21, self.m22, o.m01, o.m11, o.m21),
            m22: dot3_spec(self.m20, self.m21, self.m22, o.m02, o.m12, o.m22),
        }
    }

    /// Multiplies two matrices.
    pub fn mat_mul(self, o: Self) -> (r: Self)
        ensures
            r == self.mat_mul_spec(o),
    {
        Mat3 {
            m00: dot3(self.m00, self.m01, self.m02, o.m00, o.m10, o.m20),
            m01: dot3(self.m00, self.m01, self.m02, o.m01, o.m11, o.m21),
            m02: dot3(self.m00, self.m01, self.m02, o.m02, o.m12, o.m22),
            m10: dot3(self.m10, self.m11, self.m12, o.m00, o.m10, o.m20),
            m11: dot3(self.m10, self.m11, self.m12, o.m01, o.m11, o.m21),
            m12: dot3(self.m10, self.m11, self.m12, o.m02, o.m12, o.m22),
            m20: dot3(self.m20, self.m21, self.m22, o.m00, o.m10, o.m20),
            m21: dot3(self.m20, self.m21, self.m22, o.m01, o.m11, o.m21),
            m22: dot3(self.m20, self.m21, self.m22, o.m02, o.m12, o.m22),
        }
    }

    /// The product `self · v` of the matrix and a column.
    pub open spec fn mul_vec_spec(self, v: Col3<T>) -> Col3<T> {
        Col3 {
            x: dot3_spec(self.m00, self.m01, self.m02, v.x, v.y, v.z),
            y: dot3_spec(self.m10, self.m11, self.m12, v.x, v.y, v.z),
            z: dot3_spec(self.m20, self.m21, self.m22, v.x, v.y, v.z),
        }
    }

    /// Multiplies the matrix by a column.
    pub fn mul_vec(self, v: Col3<T>) -> (r: Col3<T>)
        ensures
            r == self.mul_vec_spec(v),
    {
        Col3 {
            x: dot3(self.m00, self.m01, self.m02, v.x, v.y, v.z),
            y: dot3(self.m10, self.m11, self.m12, v.x, v.y, v.z),
            z: dot3(self.m20, self.m21, self.m22, v.x, v.y, v.z),
        }
    }
}

/// A 4×4 matrix; `mij` is the entry in row `i` and column `j`.
#[derive(Clone, Copy, Debug, PartialEq)]
pub struct Mat4<T> {
    pub m00: T,
    pub m01: T,
    pub m02: T,
    pub m03: T,
    pub m10: T,
    pub m11: T,
    pub m12: T,
    pub m13: T,
    pub m20: T,
    pub m21: T,
    pub m22: T,
    pub m23: T,
    pub m30: T,
    pub m31: T,
    pub m32: T,
    pub m33: T,
}

impl<T> Mat4<T> {
    /// The upper left 3×3 block.
    pub open spec fn rot_spec(self) -> Mat3<T> {
        Mat3 {
            m00: self.m00,
            m01: self.m01,
            m02: self.m02,
            m10: self.m10,
            m11: self.m11,
            m12: self.m12,
            m20: self.m20,
            m21: self.m21,
            m22: self.m22,
        }
    }

    /// The first three entries of the last column.
    pub open spec fn trans_spec(self) -> Col3<T> {
        Col3 { x: self.m03, y: self.m13, z: self.m23 }
    }
}

impl<T: Real> Mat4<T> {
    /// The matrix with the given entries, listed row by row.
    pub fn new(
        m00: T,
        m01: T,
        m02: T,
        m03: T,
        m10: T,
        m11: T,
        m12: T,
        m13: T,
        m20: T,
        m21: T,
        m22: T,
        m23: T,
        m30: T,
        m31: T,
        m32: T,
        m33: T,
    ) -> (r: Self)
        ensures
            r == (Mat4 {
                m00,
                m01,
                m02,
                m03,
                m10,
                m11,
                m12,
                m13,
                m20,
                m21,
                m22,
                m23,
                m30,
                m31,
                m32,
                m33,
            }),
    {
        Mat4 { m00, m01, m02, m03, m10, m11, m12, m13, m20, m21, m22, m23, m30, m31, m32, m33 }
    }

    /// The homogeneous matrix `[[r, p], [0, 1]]`.
    pub open spec fn from_blocks_spec(r: Mat3<T>, p: Col3<T>) -> Self {
        let o = T::one_spec();
        let z = T::zero_spec();
        Mat4 {
            m00: r.m00,
            m01: r.m01,
            m02: r.m02,
            m03: p.x,
            m10: r.m10,
            m11: r.m11,
            m12: r.m12,
            m13: p.y,
            m20: r.m20,
            m21: r.m21,
            m22: r.m22,
            m23: p.z,
            m30: z,
            m31: z,
            m32: z,
            m33: o,
        }
    }

    /// Builds the homogeneous matrix `[[r, p], [0, 1]]`.
    pub fn from_blocks(r: Mat3<T>, p: Col3<T>) -> (m: Self)
        ensures
            m == Self::from_blocks_spec(r, p),
    {
        let o = T::one();
        let z = T::zero();
        Mat4 {
            m00: r.m00,
            m01: r.m01,
            m02: r.m02,
            m03: p.x,
            m10: r.m10,
            m11: r.m11,
            m12: r.m12,
            m13: p.y,
            m20: r.m20,
            m21: r.m21,
            m22: r.m22,
            m23: p.z,
            m30: z,
            m31: z,
            m32: z,
            m33: o,
        }
    }

    /// The identity matrix.
    pub open spec fn identity_spec() -> Self {
        Self::from_blocks_spec(Mat3::identity_spec(), Col3::zeros_spec())
    }

    /// Builds the identity matrix.
    pub fn identity() -> (r: Self)
        ensures
            r == Self::identity_spec(),
    {
        Self::from_blocks(Mat3::identity(), Col3::zeros())
    }

    /// Copies out the upper left 3×3 block.
    pub fn rot(self) -> (r: Mat3<T>)
        ensures
            r == self.rot_spec(),
    {
        Mat3 {
            m00: self.m00,
            m01: self.m01,
            m02: self.m02,
            m10: self.m10,
            m11: self.m11,
            m12: self.m12,
            m20: self.m20,
            m21: self.m21,
            m22: self.m22,
        }
    }

    /// Copies out the first three entries of the last column.
    pub fn trans(self) -> (r: Col3<T>)
        ensures
            r == self.trans_spec(),
    {
        Col3 { x: self.m03, y: self.m13, z: self.m23 }
    }

    /// The matrix product `self · o`.
    pub open spec fn mat_mul_spec(self, o: Self) -> Self {
        Mat4 {
            m00: dot4_spec(self.m00, self.m01, self.m02, self.m03, o.m00, o.m10, o.m20, o.m30),
            m01: dot4_spec(self.m00, self.m01, self.m02, self.m03, o.m01, o.m11, o.m21, o.m31),
            m02: dot4_spec(self.m00, self.m01, self.m02, self.m03, o.m02, o.m12, o.m22, o.m32),
            m03: dot4_spec(self.m00, self.m01, self.m02, self.m03, o.m03, o.m13, o.m23, o.m33),
            m10: dot4_spec(self.m10, self.m11, self.m12, self.m13, o.m00, o.m10, o.m20, o.m30),
            m11: dot4_spec(self.m10, self.m11, self.m12, self.m13, o.m01, o.m11, o.m21, o.m31),
            m12: dot4_spec(self.m10, self.m11, self.m12, self.m13, o.m02, o.m12, o.m22, o.m32),
            m13: dot4_spec(self.m10, self.m11, self.m12, self.m13, o.m03, o.m13, o.m23, o.m33),
            m20: dot4_spec(self.m20, self.m21, self.m22, self.m23, o.m00, o.m10, o.m20, o.m30),
            m21: dot4_spec(self.m20, self.m21, self.m22, self.m23, o.m01, o.m11, o.m21, o.m31),
            m22: dot4_spec(self.m20, self.m21, self.m22, self.m23, o.m02, o.m12, o.m22, o.m32),
            m23: dot4_spec(self.m20, self.m21, self.m22, self.m23, o.m03, o.m13, o.m23, o.m33),
            m30: dot4_spec(self.m30, self.m31, self.m32, self.m33, o.m00, o.m10, o.m20, o.m30),
            m31: dot4_spec(self.m30, self.m31, self.m32, self.m33, o.m01, o.m11, o.m21, o.m31),
            m32: dot4_spec(self.m30, self.m31, self.m32, self.m33, o.m02, o.m12, o.m22, o.m32),
            m33: dot4_spec(self.m30, self.m31, self.m32, self.m33, o.m03, o.m13, o.m23, o.m33),
        }
    }

    /// Multiplies two matrices.
    pub fn mat_mul(self, o: Self) -> (r: Self)
        ensures
            r == self.mat_mul_spec(o),
    {
        Mat4 {
            m00: dot4(self.m00, self.m01, self.m02, self.m03, o.m00, o.m10, o.m20, o.m30),
            m01: dot4(self.m00, self.m01, self.m02, self.m03, o.m01, o.m11, o.m21, o.m31),
            m02: dot4(self.m00, self.m01, self.m02, self.m03, o.m02, o.m12, o.m22, o.m32),
            m03: dot4(self.m00, self.m01, self.m02, self.m03, o.m03, o.m13, o.m23, o.m33),
            m10: dot4(self.m10, self.m11, self.m12, self.m13, o.m00, o.m10, o.m20, o.m30),
            m11: dot4(self.m10, self.m11, self.m12, self.m13, o.m01, o.m11, o.m21, o.m31),
            m12: dot4(self.m10, self.m11, self.m12, self.m13, o.m02, o.m12, o.m22, o.m32),
            m13: dot4(self.m10, self.m11, self.m12, self.m13, o.m03, o.m13, o.m23, o.m33),
            m20: dot4(self.m20, self.m21, self.m22, self.m23, o.m00, o.m10, o.m20, o.m30),
            m21: dot4(self.m20, self.m21, self.m22, self.m23, o.m01, o.m11, o.m21, o.m31),
            m22: dot4(self.m20, self.m21, self.m22, self.m23, o.m02, o.m12, o.m22, o.m32),
            m23: dot4(self.m20, self.m21, self.m22, self.m23, o.m03, o.m13, o.m23, o.m33),
            m30: dot4(self.m30, self.m31, self.m32, self.m33, o.m00, o.m10, o.m20, o.m30),
            m31: dot4(self.m30, self.m31, self.m32, self.m33, o.m01, o.m11, o.m21, o.m31),
            m32: dot4(self.m30, self.m31, self.m32, self.m33, o.m02, o.m12, o.m22, o.m32),
            m33: dot4(self.m30, self.m31, self.m32, self.m33, o.m03, o.m13, o.m23, o.m33),
        }
    }

    /// The first three rows of `self · (p, 1)`: the point `p` in homogeneous
    /// coordinates, moved by the matrix, with the fourth coordinate dropped.
    pub open spec fn act_spec(self, p: Col3<T>) -> Col3<T> {
        let o = T::one_spec();
        Col3 {
            x: dot4_spec(self.m00, self.m01, self.m02, self.m03, p.x, p.y, p.z, o),
            y: dot4_spec(self.m10, self.m11, self.m12, self.m13, p.x, p.y, p.z, o),
            z: dot4_spec(self.m20, self.m21, self.m22, self.m23, p.x, p.y, p.z, o),
        }
    }

    /// Moves the point `p` by the matrix.
    pub fn act(self, p: Col3<T>) -> (r: Col3<T>)
        ensures
            r == self.act_spec(p),
    {
        let o = T::one();
        Col3 {
            x: dot4(self.m00, self.m01, self.m02, self.m03, p.x, p.y, p.z, o),
            y: dot4(self.m10, self.m11, self.m12, self.m13, p.x, p.y, p.z, o),
            z: dot4(self.m20, self.m21, self.m22, self.m23, p.x, p.y, p.z, o),
        }
    }
}

/// The six scalars `(w, v)`: the column `w` stacked on the column `v`.
pub open spec fn stack_spec<T: Real>(w: Col3<T>, v: Col3<T>) -> Seq<T> {
    seq![w.x, w.y, w.z, v.x, v.y, v.z]
}

/// Stacks the column `w` on the column `v`.
pub fn stack<T: Real>(w: Col3<T>, v: Col3<T>) -> (r: [T; 6])
    ensures
        r@ == stack_spec(w, v),
{
    let r = [w.x, w.y, w.z, v.x, v.y, v.z];
    assert(r@ =~= stack_spec(w, v));
    r
}

/// The first three of six scalars.
pub open spec fn upper_spec<T: Real>(s: Seq<T>) -> Col3<T> {
    Col3 { x: s[0], y: s[1], z: s[2] }
}

/// Copies out the first three of six scalars.
pub fn upper<T: Real>(a: &[T; 6]) -> (r: Col3<T>)
    ensures
        r == upper_spec(a@),
{
    Col3 { x: a[0], y: a[1], z: a[2] }
}

/// The last three of six scalars.
pub open spec fn lower_spec<T: Real>(s: Seq<T>) -> Col3<T> {
    Col3 { x: s[3], y: s[4], z: s[5] }
}

/// Copies out the last three of six scalars.
pub fn lower<T: Real>(a: &[T; 6]) -> (r: Col3<T>)
    ensures
        r == lower_spec(a@),
{
    Col3 { x: a[3], y: a[4], z: a[5] }
}

/// Each of six scalars multiplied by `k`.
pub open spec fn scale6_spec<T: Real>(a: [T; 6], k: T) -> [T; 6] {
    [
        a[0].mul_spec(k),
        a[1].mul_spec(k),
        a[2].mul_spec(k),
        a[3].mul_spec(k),
        a[4].mul_spec(k),
        a[5].mul_spec(k),
    ]
}

/// Multiplies each of six scalars by `k`.
pub fn scale6<T: Real>(a: &[T; 6], k: T) -> (r: [T; 6])
    ensures
        r == scale6_spec(*a, k),
{
    let r = [a[0].mul(k), a[1].mul(k), a[2].mul(k), a[3].mul(k), a[4].mul(k), a[5].mul(k)];
    assert(r =~= scale6_spec(*a, k));
    r
}

/// The itemwise sum of six scalars and six scalars.
pub open spec fn add6_spec<T: Real>(a: [T; 6], b: [T; 6]) -> [T; 6] {
    [
        a[0].add_spec(b[0]),
        a[1].add_spec(b[1]),
        a[2].add_spec(b[2]),
        a[3].add_spec(b[3]),
        a[4].add_spec(b[4]),
        a[5].add_spec(b[5]),
    ]
}

/// Adds six scalars to six scalars, item by item.
pub fn add6<T: Real>(a: &[T; 6], b: &[T; 6]) -> (r: [T; 6])
    ensures
        r == add6_spec(*a, *b),
{
    let r = [
        a[0].add(b[0]),
        a[1].add(b[1]),
        a[2].add(b[2]),
        a[3].add(b[3]),
        a[4].add(b[4]),
        a[5].add(b[5]),
    ];
    assert(r =~= add6_spec(*a, *b));
    r
}

/// Entry `(i, j)` of a 6×6 matrix held column by column in `m`.
pub open spec fn at6<T>(m: Seq<T>, i: int, j: int) -> T {
    m[6 * j + i]
}

/// The 6×6 matrix `[[a, b], [c, d]]` of four 3×3 blocks, listed column by
/// column.
pub open spec fn block6_spec<T: Real>(a: Mat3<T>, b: Mat3<T>, c: Mat3<T>, d: Mat3<T>) -> Seq<T> {
    seq![
        a.m00, a.m10, a.m20, c.m00, c.m10, c.m20,
        a.m01, a.m11, a.m21, c.m01, c.m11, c.m21,
        a.m02, a.m12, a.m22, c.m02, c.m12, c.m22,
        b.m00, b.m10, b.m20, d.m00, d.m10, d.m20,
        b.m01, b.m11, b.m21, d.m01, d.m11, d.m21,
        b.m02, b.m12, b.m22, d.m02, d.m12, d.m22,
    ]
}

/// Builds the 6×6 matrix `[[a, b], [c, d]]`, column by column.
pub fn block6<T: Real>(a: &Mat3<T>, b: &Mat3<T>, c: &Mat3<T>, d: &Mat3<T>) -> (r: [T; 36])
    ensures
        r@ == block6_spec(*a, *b, *c, *d),
{
    let r = [
        a.m00, a.m10, a.m20, c.m00, c.m10, c.m20,
        a.m01, a.m11, a.m21, c.m01, c.m11, c.m21,
        a.m02, a.m12, a.m22, c.m02, c.m12, c.m22,
        b.m00, b.m10, b.m20, d.m00, d.m10, d.m20,
        b.m01, b.m11, b.m21, d.m01, d.m11, d.m21,
        b.m02, b.m12, b.m22, d.m02, d.m12, d.m22,
    ];
    assert(r@ =~= block6_spec(*a, *b, *c, *d));
    r
}

/// Row `i` of the 6×6 matrix `m` times the six scalars `x`, summed from the
/// left.
pub open spec fn row6_spec<T: Real>(m: Seq<T>, x: Seq<T>, i: int) -> T {
    at6(m, i, 0).mul_spec(x[0]).add_spec(at6(m, i, 1).mul_spec(x[1])).add_spec(
        at6(m, i, 2).mul_spec(x[2]),
    ).add_spec(at6(m, i, 3).mul_spec(x[3])).add_spec(at6(m, i, 4).mul_spec(x[4])).add_spec(
        at6(m, i, 5).mul_spec(x[5]),
    )
}

/// The product of the 6×6 matrix `m` and the six scalars `x`.
pub open spec fn mat6_mul_vec_spec<T: Real>(m: Seq<T>, x: Seq<T>) -> Seq<T> {
    Seq::new(6, |i: int| row6_spec(m, x, i))
}

/// Multiplies row `i` of the 6×6 matrix `m` by the six scalars `x`.
fn row6<T: Real>(m: &[T; 36], x: &[T; 6], i: usize) -> (r: T)
    requires
        i < 6,
    ensures
        r == row6_spec(m@, x@, i as int),
{
    m[i].mul(x[0]).add(m[6 + i].mul(x[1])).add(m[12 + i].mul(x[2])).add(m[18 + i].mul(x[3])).add(
        m[24 + i].mul(x[4]),
    ).add(m[30 + i].mul(x[5]))
}

/// Multiplies the 6×6 matrix `m` by the six scalars `x`.
pub fn mat6_mul_vec<T: Real>(m: &[T; 36], x: &[T; 6]) -> (r: [T; 6])
    ensures
        r@ == mat6_mul_vec_spec(m@, x@),
{
    let r = [
        row6(m, x, 0),
        row6(m, x, 1),
        row6(m, x, 2),
        row6(m, x, 3),
        row6(m, x, 4),
        row6(m, x, 5),
    ];
    assert(r@ =~= mat6_mul_vec_spec(m@, x@));
    r
}

/// The transpose of the 6×6 matrix `m`.
pub open spec fn transpose6_spec<T>(m: Seq<T>) -> Seq<T> {
    Seq::new(36, |k: int| at6(m, k / 6, k % 6))
}

/// Transposes the 6×6 matrix `m`.
pub fn transpose6<T: Real>(m: &[T; 36]) -> (r: [T; 36])
    ensures
        r@ == transpose6_spec(m@),
{
    let mut r = *m;
    let mut k: usize = 0;
    while k < 36
        invariant
            k <= 36,
            forall|n: int| 0 <= n < k ==> r@[n] == at6(m@, n / 6, n % 6),
        decreases 36 - k,
    {
        r[k] = m[6 * (k % 6) + k / 6];
        k += 1;
    }
    assert(r@ =~= transpose6_spec(m@));
    r
}

/// Copies the first 36 items of `val` into an array.
pub fn array36<T: Real>(val: &[T]) -> (r: [T; 36])
    requires
        val@.len() >= 36,
    ensures
        r@ == val@.subrange(0, 36),
{
    let mut r = [val[0];36];
    let mut k: usize = 0;
    while k < 36
        invariant
            k <= 36,
            val@.len() >= 36,
            forall|n: int| 0 <= n < k ==> r@[n] == val@[n],
        decreases 36 - k,
    {
        r[k] = val[k];
        k += 1;
    }
    assert(r@ =~= val@.subrange(0, 36));
    r
}

} // verus!
