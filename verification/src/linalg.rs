//! Thin linear-algebra layer over the fixed-point scalar: 3x3 and 3x4
//! matrices and length-3/4 vectors, with matrix-matrix and matrix-vector
//! multiplication. Every product entry is the dot product of a row and a
//! column, accumulated left to right in fixed-point arithmetic throughout,
//! with no intermediate promotion to a wider numeric type.

use crate::fractional_type::{fx_add, fx_mul, FractionalType};
use vstd::prelude::*;

verus! {

/// Raw-value dot product of two length-3 tuples, accumulated left to right.
pub open spec fn dot3(a0: int, a1: int, a2: int, b0: int, b1: int, b2: int) -> int {
    fx_add(fx_add(fx_mul(a0, b0), fx_mul(a1, b1)), fx_mul(a2, b2))
}

/// Raw-value dot product of two length-4 tuples, accumulated left to right.
pub open spec fn dot4(
    a0: int,
    a1: int,
    a2: int,
    a3: int,
    b0: int,
    b1: int,
    b2: int,
    b3: int,
) -> int {
    fx_add(fx_add(fx_add(fx_mul(a0, b0), fx_mul(a1, b1)), fx_mul(a2, b2)), fx_mul(a3, b3))
}

/// Mathematical model of a 3x3 matrix: the raw entry values, row major.
pub struct Mat3Model {
    pub m00: int,
    pub m01: int,
    pub m02: int,
    pub m10: int,
    pub m11: int,
    pub m12: int,
    pub m20: int,
    pub m21: int,
    pub m22: int,
}

/// Mathematical model of a 3x4 matrix: the raw entry values, row major.
pub struct Mat3x4Model {
    pub m00: int,
    pub m01: int,
    pub m02: int,
    pub m03: int,
    pub m10: int,
    pub m11: int,
    pub m12: int,
    pub m13: int,
    pub m20: int,
    pub m21: int,
    pub m22: int,
    pub m23: int,
}

/// Mathematical model of a length-3 vector of raw values.
pub struct Vec3Model {
    pub x: int,
    pub y: int,
    pub z: int,
}

/// Mathematical model of a length-4 vector of raw values.
pub struct Vec4Model {
    pub x: int,
    pub y: int,
    pub z: int,
    pub w: int,
}

/// Model of the product of two 3x3 matrices.
pub open spec fn mat3_mul_model(a: Mat3Model, b: Mat3Model) -> Mat3Model {
    Mat3Model {
        m00: dot3(a.m00, a.m01, a.m02, b.m00, b.m10, b.m20),
        m01: dot3(a.m00, a.m01, a.m02, b.m01, b.m11, b.m21),
        m02: dot3(a.m00, a.m01, a.m02, b.m02, b.m12, b.m22),
        m10: dot3(a.m10, a.m11, a.m12, b.m00, b.m10, b.m20),
        m11: dot3(a.m10, a.m11, a.m12, b.m01, b.m11, b.m21),
        m12: dot3(a.m10, a.m11, a.m12, b.m02, b.m12, b.m22),
        m20: dot3(a.m20, a.m21, a.m22, b.m00, b.m10, b.m20),
        m21: dot3(a.m20, a.m21, a.m22, b.m01, b.m11, b.m21),
        m22: dot3(a.m20, a.m21, a.m22, b.m02, b.m12, b.m22),
    }
}

/// Model of the product of a 3x3 matrix with a 3x4 matrix.
pub open spec fn mat3_mul_mat3x4_model(a: Mat3Model, b: Mat3x4Model) -> Mat3x4Model {
    Mat3x4Model {
        m00: dot3(a.m00, a.m01, a.m02, b.m00, b.m10, b.m20),
        m01: dot3(a.m00, a.m01, a.m02, b.m01, b.m11, b.m21),
        m02: dot3(a.m00, a.m01, a.m02, b.m02, b.m12, b.m22),
        m03: dot3(a.m00, a.m01, a.m02, b.m03, b.m13, b.m23),
        m10: dot3(a.m10, a.m11, a.m12, b.m00, b.m10, b.m20),
        m11: dot3(a.m10, a.m11, a.m12, b.m01, b.m11, b.m21),
        m12: dot3(a.m10, a.m11, a.m12, b.m02, b.m12, b.m22),
        m13: dot3(a.m10, a.m11, a.m12, b.m03, b.m13, b.m23),
        m20: dot3(a.m20, a.m21, a.m22, b.m00, b.m10, b.m20),
        m21: dot3(a.m20, a.m21, a.m22, b.m01, b.m11, b.m21),
        m22: dot3(a.m20, a.m21, a.m22, b.m02, b.m12, b.m22),
        m23: dot3(a.m20, a.m21, a.m22, b.m03, b.m13, b.m23),
    }
}

/// Model of a 3x3 matrix applied to a length-3 column vector.
pub open spec fn mat3_apply_model(m: Mat3Model, v: Vec3Model) -> Vec3Model {
    Vec3Model {
        x: dot3(m.m00, m.m01, m.m02, v.x, v.y, v.z),
        y: dot3(m.m10, m.m11, m.m12, v.x, v.y, v.z),
        z: dot3(m.m20, m.m21, m.m22, v.x, v.y, v.z),
    }
}

/// Model of a 3x4 matrix applied to a length-4 column vector.
pub open spec fn mat3x4_apply_model(m: Mat3x4Model, v: Vec4Model) -> Vec3Model {
    Vec3Model {
        x: dot4(m.m00, m.m01, m.m02, m.m03, v.x, v.y, v.z, v.w),
        y: dot4(m.m10, m.m11, m.m12, m.m13, v.x, v.y, v.z, v.w),
        z: dot4(m.m20, m.m21, m.m22, m.m23, v.x, v.y, v.z, v.w),
    }
}

/// A 3x3 matrix of fixed-point entries, built from a row-major literal.
#[derive(Clone, Copy)]
pub struct Matrix3 {
    pub e: [[FractionalType; 3]; 3],
}

impl View for Matrix3 {
    type V = Mat3Model;

    open spec fn view(&self) -> Mat3Model {
        Mat3Model {
            m00: self.e[0][0]@,
            m01: self.e[0][1]@,
            m02: self.e[0][2]@,
            m10: self.e[1][0]@,
            m11: self.e[1][1]@,
            m12: self.e[1][2]@,
            m20: self.e[2][0]@,
            m21: self.e[2][1]@,
            m22: self.e[2][2]@,
        }
    }
}

/// A 3x4 matrix of fixed-point entries, built from a row-major literal.
#[derive(Clone, Copy)]
pub struct Matrix3x4 {
    pub e: [[FractionalType; 4]; 3],
}

impl View for Matrix3x4 {
    type V = Mat3x4Model;

    open spec fn view(&self) -> Mat3x4Model {
        Mat3x4Model {
            m00: self.e[0][0]@,
            m01: self.e[0][1]@,
            m02: self.e[0][2]@,
            m03: self.e[0][3]@,
            m10: self.e[1][0]@,
            m11: self.e[1][1]@,
            m12: self.e[1][2]@,
            m13: self.e[1][3]@,
            m20: self.e[2][0]@,
            m21: self.e[2][1]@,
            m22: self.e[2][2]@,
            m23: self.e[2][3]@,
        }
    }
}

/// A length-3 vector of fixed-point values.
#[derive(Clone, Copy)]
pub struct Vector3 {
    pub x: FractionalType,
    pub y: FractionalType,
    pub z: FractionalType,
}

impl View for Vector3 {
    type V = Vec3Model;

    open spec fn view(&self) -> Vec3Model {
        Vec3Model { x: self.x@, y: self.y@, z: self.z@ }
    }
}

/// A length-4 vector of fixed-point values.
#[derive(Clone, Copy)]
pub struct Vector4 {
    pub x: FractionalType,
    pub y: FractionalType,
    pub z: FractionalType,
    pub w: FractionalType,
}

impl View for Vector4 {
    type V = Vec4Model;

    open spec fn view(&self) -> Vec4Model {
        Vec4Model { x: self.x@, y: self.y@, z: self.z@, w: self.w@ }
    }
}

impl Matrix3 {
    /// Matrix product with another 3x3 matrix.
    pub fn mul_mat3(&self, other: &Matrix3) -> (r: Matrix3)
        ensures
            r@ == mat3_mul_model(self@, other@),
    {
        let a = &self.e;
        let b = &other.e;
        Matrix3 {
            e: [
                [
                    a[0][0].mul(b[0][0]).add(a[0][1].mul(b[1][0])).add(a[0][2].mul(b[2][0])),
                    a[0][0].mul(b[0][1]).add(a[0][1].mul(b[1][1])).add(a[0][2].mul(b[2][1])),
                    a[0][0].mul(b[0][2]).add(a[0][1].mul(b[1][2])).add(a[0][2].mul(b[2][2])),
                ],
                [
                    a[1][0].mul(b[0][0]).add(a[1][1].mul(b[1][0])).add(a[1][2].mul(b[2][0])),
                    a[1][0].mul(b[0][1]).add(a[1][1].mul(b[1][1])).add(a[1][2].mul(b[2][1])),
                    a[1][0].mul(b[0][2]).add(a[1][1].mul(b[1][2])).add(a[1][2].mul(b[2][2])),
                ],
                [
                    a[2][0].mul(b[0][0]).add(a[2][1].mul(b[1][0])).add(a[2][2].mul(b[2][0])),
                    a[2][0].mul(b[0][1]).add(a[2][1].mul(b[1][1])).add(a[2][2].mul(b[2][1])),
                    a[2][0].mul(b[0][2]).add(a[2][1].mul(b[1][2])).add(a[2][2].mul(b[2][2])),
                ],
            ],
        }
    }

    /// Matrix product with a 3x4 matrix on the right.
    pub fn mul_mat3x4(&self, other: &Matrix3x4) -> (r: Matrix3x4)
        ensures
            r@ == mat3_mul_mat3x4_model(self@, other@),
    {
        let a = &self.e;
        let b = &other.e;
        Matrix3x4 {
            e: [
                [
                    a[0][0].mul(b[0][0]).add(a[0][1].mul(b[1][0])).add(a[0][2].mul(b[2][0])),
                    a[0][0].mul(b[0][1]).add(a[0][1].mul(b[1][1])).add(a[0][2].mul(b[2][1])),
                    a[0][0].mul(b[0][2]).add(a[0][1].mul(b[1][2])).add(a[0][2].mul(b[2][2])),
                    a[0][0].mul(b[0][3]).add(a[0][1].mul(b[1][3])).add(a[0][2].mul(b[2][3])),
                ],
                [
                    a[1][0].mul(b[0][0]).add(a[1][1].mul(b[1][0])).add(a[1][2].mul(b[2][0])),
                    a[1][0].mul(b[0][1]).add(a[1][1].mul(b[1][1])).add(a[1][2].mul(b[2][1])),
                    a[1][0].mul(b[0][2]).add(a[1][1].mul(b[1][2])).add(a[1][2].mul(b[2][2])),
                    a[1][0].mul(b[0][3]).add(a[1][1].mul(b[1][3])).add(a[1][2].mul(b[2][3])),
                ],
                [
                    a[2][0].mul(b[0][0]).add(a[2][1].mul(b[1][0])).add(a[2][2].mul(b[2][0])),
                    a[2][0].mul(b[0][1]).add(a[2][1].mul(b[1][1])).add(a[2][2].mul(b[2][1])),
                    a[2][0].mul(b[0][2]).add(a[2][1].mul(b[1][2])).add(a[2][2].mul(b[2][2])),
                    a[2][0].mul(b[0][3]).add(a[2][1].mul(b[1][3])).add(a[2][2].mul(b[2][3])),
                ],
            ],
        }
    }

    /// This matrix applied to a length-3 column vector.
    pub fn apply(&self, v: &Vector3) -> (r: Vector3)
        ensures
            r@ == mat3_apply_model(self@, v@),
    {
        let a = &self.e;
        Vector3 {
            x: a[0][0].mul(v.x).add(a[0][1].mul(v.y)).add(a[0][2].mul(v.z)),
            y: a[1][0].mul(v.x).add(a[1][1].mul(v.y)).add(a[1][2].mul(v.z)),
            z: a[2][0].mul(v.x).add(a[2][1].mul(v.y)).add(a[2][2].mul(v.z)),
        }
    }
}

impl Matrix3x4 {
    /// This matrix applied to a length-4 column vector, yielding a length-3
    /// vector.
    pub fn apply(&self, v: &Vector4) -> (r: Vector3)
        ensures
            r@ == mat3x4_apply_model(self@, v@),
    {
        let a = &self.e;
        Vector3 {
            x: a[0][0].mul(v.x).add(a[0][1].mul(v.y)).add(a[0][2].mul(v.z)).add(
                a[0][3].mul(v.w),
            ),
            y: a[1][0].mul(v.x).add(a[1][1].mul(v.y)).add(a[1][2].mul(v.z)).add(
                a[1][3].mul(v.w),
            ),
            z: a[2][0].mul(v.x).add(a[2][1].mul(v.y)).add(a[2][2].mul(v.z)).add(
                a[2][3].mul(v.w),
            ),
        }
    }
}

} // verus!
