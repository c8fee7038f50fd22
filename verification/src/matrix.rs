//! Row-major 4x4 matrices over exact integer entries, with the
//! row-vector convention: a vector transforms as `v * M`.
use vstd::prelude::*;

use crate::quaternion::Quat;
use crate::quaternion::Quaternion;
use crate::vector3::Vec3;
use crate::vector3::Vector3;
use crate::{in_range, lemma_minor_bound, lemma_mul_bound, COORD_LIMIT};

verus! {

/// Mathematical model of a row-major 4x4 matrix over unbounded integers.
/// All contracts and laws are stated over this type.
pub struct Mat4 {

    pub m11: int, pub m12: int, pub m13: int, pub m14: int,
    pub m21: int, pub m22: int, pub m23: int, pub m24: int,
    pub m31: int, pub m32: int, pub m33: int, pub m34: int,
    pub m41: int, pub m42: int, pub m43: int, pub m44: int,
}

impl Mat4 {
    /// Every entry lies within the range the executable operations accept.
    pub open spec fn bounded(self) -> bool {

        in_range(self.m11) && in_range(self.m12) && in_range(self.m13) && in_range(self.m14) && in_range(self.m21) && in_range(self.m22) && in_range(self.m23) && in_range(self.m24) && in_range(self.m31) && in_range(self.m32) && in_range(self.m33) && in_range(self.m34) && in_range(self.m41) && in_range(self.m42) && in_range(self.m43) && in_range(self.m44)
    }

    /// No entry is the one value whose negation overflows an `i128`.
    pub open spec fn negatable(self) -> bool {

        self.m11 != i128::MIN && self.m12 != i128::MIN && self.m13 != i128::MIN && self.m14 != i128::MIN && self.m21 != i128::MIN && self.m22 != i128::MIN && self.m23 != i128::MIN && self.m24 != i128::MIN && self.m31 != i128::MIN && self.m32 != i128::MIN && self.m33 != i128::MIN && self.m34 != i128::MIN && self.m41 != i128::MIN && self.m42 != i128::MIN && self.m43 != i128::MIN && self.m44 != i128::MIN
    }

    pub open spec fn add(self, rhs: Mat4) -> Mat4 {
        Mat4 {

            m11: self.m11 + rhs.m11, m12: self.m12 + rhs.m12, m13: self.m13 + rhs.m13, m14: self.m14 + rhs.m14, m21: self.m21 + rhs.m21, m22: self.m22 + rhs.m22, m23: self.m23 + rhs.m23, m24: self.m24 + rhs.m24, m31: self.m31 + rhs.m31, m32: self.m32 + rhs.m32, m33: self.m33 + rhs.m33, m34: self.m34 + rhs.m34, m41: self.m41 + rhs.m41, m42: self.m42 + rhs.m42, m43: self.m43 + rhs.m43, m44: self.m44 + rhs.m44,
        }
    }

    pub open spec fn sub(self, rhs: Mat4) -> Mat4 {
        Mat4 {

            m11: self.m11 - rhs.m11, m12: self.m12 - rhs.m12, m13: self.m13 - rhs.m13, m14: self.m14 - rhs.m14, m21: self.m21 - rhs.m21, m22: self.m22 - rhs.m22, m23: self.m23 - rhs.m23, m24: self.m24 - rhs.m24, m31: self.m31 - rhs.m31, m32: self.m32 - rhs.m32, m33: self.m33 - rhs.m33, m34: self.m34 - rhs.m34, m41: self.m41 - rhs.m41, m42: self.m42 - rhs.m42, m43: self.m43 - rhs.m43, m44: self.m44 - rhs.m44,
        }
    }

    /// The matrix product, row by column.
    pub open spec fn mul(self, rhs: Mat4) -> Mat4 {
        Mat4 {

            m11: ((self.m11 * rhs.m11 + self.m12 * rhs.m21) + self.m13 * rhs.m31) + self.m14 * rhs.m41,
            m12: ((self.m11 * rhs.m12 + self.m12 * rhs.m22) + self.m13 * rhs.m32) + self.m14 * rhs.m42,
            m13: ((self.m11 * rhs.m13 + self.m12 * rhs.m23) + self.m13 * rhs.m33) + self.m14 * rhs.m43,
            m14: ((self.m11 * rhs.m14 + self.m12 * rhs.m24) + self.m13 * rhs.m34) + self.m14 * rhs.m44,
            m21: ((self.m21 * rhs.m11 + self.m22 * rhs.m21) + self.m23 * rhs.m31) + self.m24 * rhs.m41,
            m22: ((self.m21 * rhs.m12 + self.m22 * rhs.m22) + self.m23 * rhs.m32) + self.m24 * rhs.m42,
            m23: ((self.m21 * rhs.m13 + self.m22 * rhs.m23) + self.m23 * rhs.m33) + self.m24 * rhs.m43,
            m24: ((self.m21 * rhs.m14 + self.m22 * rhs.m24) + self.m23 * rhs.m34) + self.m24 * rhs.m44,
            m31: ((self.m31 * rhs.m11 + self.m32 * rhs.m21) + self.m33 * rhs.m31) + self.m34 * rhs.m41,
            m32: ((self.m31 * rhs.m12 + self.m32 * rhs.m22) + self.m33 * rhs.m32) + self.m34 * rhs.m42,
            m33: ((self.m31 * rhs.m13 + self.m32 * rhs.m23) + self.m33 * rhs.m33) + self.m34 * rhs.m43,
            m34: ((self.m31 * rhs.m14 + self.m32 * rhs.m24) + self.m33 * rhs.m34) + self.m34 * rhs.m44,
            m41: ((self.m41 * rhs.m11 + self.m42 * rhs.m21) + self.m43 * rhs.m31) + self.m44 * rhs.m41,
            m42: ((self.m41 * rhs.m12 + self.m42 * rhs.m22) + self.m43 * rhs.m32) + self.m44 * rhs.m42,
            m43: ((self.m41 * rhs.m13 + self.m42 * rhs.m23) + self.m43 * rhs.m33) + self.m44 * rhs.m43,
            m44: ((self.m41 * rhs.m14 + self.m42 * rhs.m24) + self.m43 * rhs.m34) + self.m44 * rhs.m44,
        }
    }

    /// Scalar product.
    pub open spec fn mul_scalar(self, k: int) -> Mat4 {
        Mat4 {

            m11: self.m11 * k, m12: self.m12 * k, m13: self.m13 * k, m14: self.m14 * k, m21: self.m21 * k, m22: self.m22 * k, m23: self.m23 * k, m24: self.m24 * k, m31: self.m31 * k, m32: self.m32 * k, m33: self.m33 * k, m34: self.m34 * k, m41: self.m41 * k, m42: self.m42 * k, m43: self.m43 * k, m44: self.m44 * k,
        }
    }

    pub open spec fn neg(self) -> Mat4 {
        Mat4 {

            m11: -self.m11, m12: -self.m12, m13: -self.m13, m14: -self.m14, m21: -self.m21, m22: -self.m22, m23: -self.m23, m24: -self.m24, m31: -self.m31, m32: -self.m32, m33: -self.m33, m34: -self.m34, m41: -self.m41, m42: -self.m42, m43: -self.m43, m44: -self.m44,
        }
    }

    pub open spec fn transpose(self) -> Mat4 {
        Mat4 {

            m11: self.m11, m12: self.m21, m13: self.m31, m14: self.m41,
            m21: self.m12, m22: self.m22, m23: self.m32, m24: self.m42,
            m31: self.m13, m32: self.m23, m33: self.m33, m34: self.m43,
            m41: self.m14, m42: self.m24, m43: self.m34, m44: self.m44,
        }
    }

    /// Componentwise unclamped linear interpolation.
    pub open spec fn lerp(self, rhs: Mat4, t: int) -> Mat4 {
        Mat4 {

            m11: self.m11 + (rhs.m11 - self.m11) * t, m12: self.m12 + (rhs.m12 - self.m12) * t, m13: self.m13 + (rhs.m13 - self.m13) * t, m14: self.m14 + (rhs.m14 - self.m14) * t, m21: self.m21 + (rhs.m21 - self.m21) * t, m22: self.m22 + (rhs.m22 - self.m22) * t, m23: self.m23 + (rhs.m23 - self.m23) * t, m24: self.m24 + (rhs.m24 - self.m24) * t, m31: self.m31 + (rhs.m31 - self.m31) * t, m32: self.m32 + (rhs.m32 - self.m32) * t, m33: self.m33 + (rhs.m33 - self.m33) * t, m34: self.m34 + (rhs.m34 - self.m34) * t, m41: self.m41 + (rhs.m41 - self.m41) * t, m42: self.m42 + (rhs.m42 - self.m42) * t, m43: self.m43 + (rhs.m43 - self.m43) * t, m44: self.m44 + (rhs.m44 - self.m44) * t,
        }
    }

    /// The neutral element of the matrix product.
    pub open spec fn identity() -> Mat4 {
        Mat4 {
            m11: 1, m12: 0, m13: 0, m14: 0, m21: 0, m22: 1, m23: 0, m24: 0, m31: 0, m32: 0, m33: 1, m34: 0, m41: 0, m42: 0, m43: 0, m44: 1,
        }
    }

    /// The matrix of all zeros.
    pub open spec fn zero() -> Mat4 {
        Mat4 {
            m11: 0, m12: 0, m13: 0, m14: 0, m21: 0, m22: 0, m23: 0, m24: 0, m31: 0, m32: 0, m33: 0, m34: 0, m41: 0, m42: 0, m43: 0, m44: 0,
        }
    }

    /// The matrix of all ones.
    pub open spec fn one() -> Mat4 {
        Mat4 {
            m11: 1, m12: 1, m13: 1, m14: 1, m21: 1, m22: 1, m23: 1, m24: 1, m31: 1, m32: 1, m33: 1, m34: 1, m41: 1, m42: 1, m43: 1, m44: 1,
        }
    }

    /// The scalar matrix `k` times the identity.
    pub open spec fn scalar(k: int) -> Mat4 {
        Mat4 {
            m11: k, m12: 0, m13: 0, m14: 0, m21: 0, m22: k, m23: 0, m24: 0, m31: 0, m32: 0, m33: k, m34: 0, m41: 0, m42: 0, m43: 0, m44: k,
        }
    }

    /// The affine translation by `v`, in the last row.
    pub open spec fn translation(v: Vec3) -> Mat4 {
        Mat4 {
            m11: 1, m12: 0, m13: 0, m14: 0, m21: 0, m22: 1, m23: 0, m24: 0, m31: 0, m32: 0, m33: 1, m34: 0, m41: v.x, m42: v.y, m43: v.z, m44: 1,
        }
    }

    /// The axis-aligned scaling by the components of `v`.
    pub open spec fn scale(v: Vec3) -> Mat4 {
        Mat4 {
            m11: v.x, m12: 0, m13: 0, m14: 0, m21: 0, m22: v.y, m23: 0, m24: 0, m31: 0, m32: 0, m33: v.z, m34: 0, m41: 0, m42: 0, m43: 0, m44: 1,
        }
    }

    /// Rotation about the x axis, given the sine and cosine of the angle.
    pub open spec fn rotation_x(s: int, c: int) -> Mat4 {
        Mat4 {
            m11: 1, m12: 0, m13: 0, m14: 0, m21: 0, m22: c, m23: s, m24: 0, m31: 0, m32: -s, m33: c, m34: 0, m41: 0, m42: 0, m43: 0, m44: 1,
        }
    }

    /// Rotation about the y axis, given the sine and cosine of the angle.
    pub open spec fn rotation_y(s: int, c: int) -> Mat4 {
        Mat4 {
            m11: c, m12: 0, m13: -s, m14: 0, m21: 0, m22: 1, m23: 0, m24: 0, m31: s, m32: 0, m33: c, m34: 0, m41: 0, m42: 0, m43: 0, m44: 1,
        }
    }

    /// Rotation about the z axis, given the sine and cosine of the angle.
    pub open spec fn rotation_z(s: int, c: int) -> Mat4 {
        Mat4 {
            m11: c, m12: s, m13: 0, m14: 0, m21: -s, m22: c, m23: 0, m24: 0, m31: 0, m32: 0, m33: 1, m34: 0, m41: 0, m42: 0, m43: 0, m44: 1,
        }
    }

    /// Rotation about a unit `axis`, given the sine and cosine of the angle (the Rodrigues formula).
    pub open spec fn rotation_axis(axis: Vec3, s: int, c: int) -> Mat4 {
        Mat4 {
            m11: axis.x * axis.x + c * (1 - axis.x * axis.x), m12: (axis.x * axis.y - c * (axis.x * axis.y)) + s * axis.z, m13: (axis.x * axis.z - c * (axis.x * axis.z)) - s * axis.y, m14: 0, m21: (axis.x * axis.y - c * (axis.x * axis.y)) - s * axis.z, m22: axis.y * axis.y + c * (1 - axis.y * axis.y), m23: (axis.y * axis.z - c * (axis.y * axis.z)) + s * axis.x, m24: 0, m31: (axis.x * axis.z - c * (axis.x * axis.z)) + s * axis.y, m32: (axis.y * axis.z - c * (axis.y * axis.z)) - s * axis.x, m33: axis.z * axis.z + c * (1 - axis.z * axis.z), m34: 0, m41: 0, m42: 0, m43: 0, m44: 1,
        }
    }

    /// The rotation matrix of a unit quaternion.
    pub open spec fn from_quaternion(q: Quat) -> Mat4 {
        Mat4 {
            m11: 1 - 2 * (q.y * q.y + q.z * q.z), m12: 2 * (q.x * q.y + q.z * q.w), m13: 2 * (q.z * q.x - q.y * q.w), m14: 0, m21: 2 * (q.x * q.y - q.z * q.w), m22: 1 - 2 * (q.z * q.z + q.x * q.x), m23: 2 * (q.y * q.z + q.x * q.w), m24: 0, m31: 2 * (q.z * q.x + q.y * q.w), m32: 2 * (q.y * q.z - q.x * q.w), m33: 1 - 2 * (q.y * q.y + q.x * q.x), m34: 0, m41: 0, m42: 0, m43: 0, m44: 1,
        }
    }

    /// The matrix with its linear 3x3 block rotated by the unit
    /// quaternion `q`; the fourth column is untouched.
    pub open spec fn transform(self, q: Quat) -> Mat4 {
        let a11 = (1 - q.y * (q.y + q.y)) - q.z * (q.z + q.z);
        let a12 = q.x * (q.y + q.y) - q.w * (q.z + q.z);
        let a13 = q.x * (q.z + q.z) + q.w * (q.y + q.y);
        let a21 = q.x * (q.y + q.y) + q.w * (q.z + q.z);
        let a22 = (1 - q.x * (q.x + q.x)) - q.z * (q.z + q.z);
        let a23 = q.y * (q.z + q.z) - q.w * (q.x + q.x);
        let a31 = q.x * (q.z + q.z) - q.w * (q.y + q.y);
        let a32 = q.y * (q.z + q.z) + q.w * (q.x + q.x);
        let a33 = (1 - q.x * (q.x + q.x)) - q.y * (q.y + q.y);
        Mat4 {

            m11: (self.m11 * a11 + self.m12 * a12) + self.m13 * a13,
            m12: (self.m11 * a21 + self.m12 * a22) + self.m13 * a23,
            m13: (self.m11 * a31 + self.m12 * a32) + self.m13 * a33,
            m14: self.m14,
            m21: (self.m21 * a11 + self.m22 * a12) + self.m23 * a13,
            m22: (self.m21 * a21 + self.m22 * a22) + self.m23 * a23,
            m23: (self.m21 * a31 + self.m22 * a32) + self.m23 * a33,
            m24: self.m24,
            m31: (self.m31 * a11 + self.m32 * a12) + self.m33 * a13,
            m32: (self.m31 * a21 + self.m32 * a22) + self.m33 * a23,
            m33: (self.m31 * a31 + self.m32 * a32) + self.m33 * a33,
            m34: self.m34,
            m41: (self.m41 * a11 + self.m42 * a12) + self.m43 * a13,
            m42: (self.m41 * a21 + self.m42 * a22) + self.m43 * a23,
            m43: (self.m41 * a31 + self.m42 * a32) + self.m43 * a33,
            m44: self.m44,
        }
    }

    /// The determinant, by cofactor expansion along the first row.
    pub open spec fn det(self) -> int {
        let n18 = self.m33 * self.m44 - self.m34 * self.m43;
        let n17 = self.m32 * self.m44 - self.m34 * self.m42;
        let n16 = self.m32 * self.m43 - self.m33 * self.m42;
        let n15 = self.m31 * self.m44 - self.m34 * self.m41;
        let n14 = self.m31 * self.m43 - self.m33 * self.m41;
        let n13 = self.m31 * self.m42 - self.m32 * self.m41;
        let c1 = (self.m22 * n18 - self.m23 * n17) + self.m24 * n16;
        let c2 = (self.m21 * n18 - self.m23 * n15) + self.m24 * n14;
        let c3 = (self.m21 * n17 - self.m22 * n15) + self.m24 * n13;
        let c4 = (self.m21 * n16 - self.m22 * n14) + self.m23 * n13;
        ((self.m11 * c1 - self.m12 * c2) + self.m13 * c3) - self.m14 * c4
    }

    /// The adjugate: the transpose of the cofactor matrix. The inverse of a
    /// non-singular matrix is the adjugate scaled by the reciprocal of the
    /// determinant.
    pub open spec fn adjugate(self) -> Mat4 {
        let n23 = self.m33 * self.m44 - self.m34 * self.m43;
        let n22 = self.m32 * self.m44 - self.m34 * self.m42;
        let n21 = self.m32 * self.m43 - self.m33 * self.m42;
        let n20 = self.m31 * self.m44 - self.m34 * self.m41;
        let n19 = self.m31 * self.m43 - self.m33 * self.m41;
        let n18 = self.m31 * self.m42 - self.m32 * self.m41;
        let n35 = self.m23 * self.m44 - self.m24 * self.m43;
        let n34 = self.m22 * self.m44 - self.m24 * self.m42;
        let n33 = self.m22 * self.m43 - self.m23 * self.m42;
        let n32 = self.m21 * self.m44 - self.m24 * self.m41;
        let n31 = self.m21 * self.m43 - self.m23 * self.m41;
        let n30 = self.m21 * self.m42 - self.m22 * self.m41;
        let n29 = self.m23 * self.m34 - self.m24 * self.m33;
        let n28 = self.m22 * self.m34 - self.m24 * self.m32;
        let n27 = self.m22 * self.m33 - self.m23 * self.m32;
        let n26 = self.m21 * self.m34 - self.m24 * self.m31;
        let n25 = self.m21 * self.m33 - self.m23 * self.m31;
        let n24 = self.m21 * self.m32 - self.m22 * self.m31;
        Mat4 {
            m11: (self.m22 * n23 - self.m23 * n22) + self.m24 * n21,
            m21: -((self.m21 * n23 - self.m23 * n20) + self.m24 * n19),
            m31: (self.m21 * n22 - self.m22 * n20) + self.m24 * n18,
            m41: -((self.m21 * n21 - self.m22 * n19) + self.m23 * n18),
            m12: -((self.m12 * n23 - self.m13 * n22) + self.m14 * n21),
            m22: (self.m11 * n23 - self.m13 * n20) + self.m14 * n19,
            m32: -((self.m11 * n22 - self.m12 * n20) + self.m14 * n18),
            m42: (self.m11 * n21 - self.m12 * n19) + self.m13 * n18,
            m13: (self.m12 * n35 - self.m13 * n34) + self.m14 * n33,
            m23: -((self.m11 * n35 - self.m13 * n32) + self.m14 * n31),
            m33: (self.m11 * n34 - self.m12 * n32) + self.m14 * n30,
            m43: -((self.m11 * n33 - self.m12 * n31) + self.m13 * n30),
            m14: -((self.m12 * n29 - self.m13 * n28) + self.m14 * n27),
            m24: (self.m11 * n29 - self.m13 * n26) + self.m14 * n25,
            m34: -((self.m11 * n28 - self.m12 * n26) + self.m14 * n24),
            m44: (self.m11 * n27 - self.m12 * n25) + self.m13 * n24,
        }
    }
}

/// A row-major 4x4 matrix with exact `i128` entries.
#[derive(Clone, Copy, Debug, PartialEq, Eq, Structural)]
pub struct Matrix {

    pub m11: i128, pub m12: i128, pub m13: i128, pub m14: i128,
    pub m21: i128, pub m22: i128, pub m23: i128, pub m24: i128,
    pub m31: i128, pub m32: i128, pub m33: i128, pub m34: i128,
    pub m41: i128, pub m42: i128, pub m43: i128, pub m44: i128,
}

impl View for Matrix {
    type V = Mat4;

    open spec fn view(&self) -> Mat4 {
        Mat4 {

            m11: self.m11 as int, m12: self.m12 as int, m13: self.m13 as int, m14: self.m14 as int, m21: self.m21 as int, m22: self.m22 as int, m23: self.m23 as int, m24: self.m24 as int, m31: self.m31 as int, m32: self.m32 as int, m33: self.m33 as int, m34: self.m34 as int, m41: self.m41 as int, m42: self.m42 as int, m43: self.m43 as int, m44: self.m44 as int,
        }
    }
}


impl Matrix {
    /// The up direction of the orientation frame: the second row.
    pub fn up(&self) -> (r: Vector3)
        ensures
            r@ == (Vec3 { x: self@.m21, y: self@.m22, z: self@.m23 }),
    {
        Vector3 { x: self.m21, y: self.m22, z: self.m23 }
    }

    /// The negated second row.
    pub fn down(&self) -> (r: Vector3)
        requires
            self@.m21 != i128::MIN,
            self@.m22 != i128::MIN,
            self@.m23 != i128::MIN,
        ensures
            r@ == (Vec3 { x: -self@.m21, y: -self@.m22, z: -self@.m23 }),
    {
        Vector3 { x: -self.m21, y: -self.m22, z: -self.m23 }
    }

    /// The right direction of the orientation frame: the first row.
    pub fn right(&self) -> (r: Vector3)
        ensures
            r@ == (Vec3 { x: self@.m11, y: self@.m12, z: self@.m13 }),
    {
        Vector3 { x: self.m11, y: self.m12, z: self.m13 }
    }

    /// The negated first row.
    pub fn left(&self) -> (r: Vector3)
        requires
            self@.m11 != i128::MIN,
            self@.m12 != i128::MIN,
            self@.m13 != i128::MIN,
        ensures
            r@ == (Vec3 { x: -self@.m11, y: -self@.m12, z: -self@.m13 }),
    {
        Vector3 { x: -self.m11, y: -self.m12, z: -self.m13 }
    }

    /// The forward direction of the orientation frame: the negated third row.
    pub fn forward(&self) -> (r: Vector3)
        requires
            self@.m31 != i128::MIN,
            self@.m32 != i128::MIN,
            self@.m33 != i128::MIN,
        ensures
            r@ == (Vec3 { x: -self@.m31, y: -self@.m32, z: -self@.m33 }),
    {
        Vector3 { x: -self.m31, y: -self.m32, z: -self.m33 }
    }

    /// The third row.
    pub fn backward(&self) -> (r: Vector3)
        ensures
            r@ == (Vec3 { x: self@.m31, y: self@.m32, z: self@.m33 }),
    {
        Vector3 { x: self.m31, y: self.m32, z: self.m33 }
    }

    pub fn new(m11: i128, m12: i128, m13: i128, m14: i128, m21: i128, m22: i128, m23: i128, m24: i128, m31: i128, m32: i128, m33: i128, m34: i128, m41: i128, m42: i128, m43: i128, m44: i128) -> (r: Matrix)
        ensures
            r@ == (Mat4 { m11: m11 as int, m12: m12 as int, m13: m13 as int, m14: m14 as int, m21: m21 as int, m22: m22 as int, m23: m23 as int, m24: m24 as int, m31: m31 as int, m32: m32 as int, m33: m33 as int, m34: m34 as int, m41: m41 as int, m42: m42 as int, m43: m43 as int, m44: m44 as int, }),
    {
        Matrix { m11, m12, m13, m14, m21, m22, m23, m24, m31, m32, m33, m34, m41, m42, m43, m44, }
    }

    /// The neutral element of the matrix product.
    pub fn identity() -> (r: Matrix)
        ensures
            r@ == Mat4::identity(),
    {
        Matrix {
            m11: 1, m12: 0, m13: 0, m14: 0, m21: 0, m22: 1, m23: 0, m24: 0, m31: 0, m32: 0, m33: 1, m34: 0, m41: 0, m42: 0, m43: 0, m44: 1,
        }
    }

    /// The matrix of all zeros.
    pub fn zero() -> (r: Matrix)
        ensures
            r@ == Mat4::zero(),
    {
        Matrix {
            m11: 0, m12: 0, m13: 0, m14: 0, m21: 0, m22: 0, m23: 0, m24: 0, m31: 0, m32: 0, m33: 0, m34: 0, m41: 0, m42: 0, m43: 0, m44: 0,
        }
    }

    /// The matrix of all ones.
    pub fn one() -> (r: Matrix)
        ensures
            r@ == Mat4::one(),
    {
        Matrix {
            m11: 1, m12: 1, m13: 1, m14: 1, m21: 1, m22: 1, m23: 1, m24: 1, m31: 1, m32: 1, m33: 1, m34: 1, m41: 1, m42: 1, m43: 1, m44: 1,
        }
    }

    /// The affine translation by `v`, in the last row.
    pub fn translation(v: Vector3) -> (r: Matrix)
        ensures
            r@ == Mat4::translation(v@),
    {
        Matrix {
            m11: 1, m12: 0, m13: 0, m14: 0, m21: 0, m22: 1, m23: 0, m24: 0, m31: 0, m32: 0, m33: 1, m34: 0, m41: v.x, m42: v.y, m43: v.z, m44: 1,
        }
    }

    /// The axis-aligned scaling by the components of `v`.
    pub fn scale(v: Vector3) -> (r: Matrix)
        ensures
            r@ == Mat4::scale(v@),
    {
        Matrix {
            m11: v.x, m12: 0, m13: 0, m14: 0, m21: 0, m22: v.y, m23: 0, m24: 0, m31: 0, m32: 0, m33: v.z, m34: 0, m41: 0, m42: 0, m43: 0, m44: 1,
        }
    }

    /// The rotation matrix of the unit quaternion `q0`.
    pub fn from_quaternion(q0: Quaternion) -> (r: Matrix)
        requires
            q0@.bounded(),
        ensures
            r@ == Mat4::from_quaternion(q0@),
    {
        proof {
            let l: int = COORD_LIMIT as int;
            lemma_mul_bound(q0.x as int, l, q0.x as int, l);
            lemma_mul_bound(q0.y as int, l, q0.y as int, l);
            lemma_mul_bound(q0.z as int, l, q0.z as int, l);
            lemma_mul_bound(q0.x as int, l, q0.y as int, l);
            lemma_mul_bound(q0.z as int, l, q0.w as int, l);
            lemma_mul_bound(q0.z as int, l, q0.x as int, l);
            lemma_mul_bound(q0.y as int, l, q0.w as int, l);
            lemma_mul_bound(q0.y as int, l, q0.z as int, l);
            lemma_mul_bound(q0.x as int, l, q0.w as int, l);
        }
        let num9 = q0.x * q0.x;
        let num8 = q0.y * q0.y;
        let num7 = q0.z * q0.z;
        let num6 = q0.x * q0.y;
        let num5 = q0.z * q0.w;
        let num4 = q0.z * q0.x;
        let num3 = q0.y * q0.w;
        let num2 = q0.y * q0.z;
        let num = q0.x * q0.w;
        Matrix {
            m11: 1 - 2 * (num8 + num7),
            m12: 2 * (num6 + num5),
            m13: 2 * (num4 - num3),
            m14: 0,
            m21: 2 * (num6 - num5),
            m22: 1 - 2 * (num7 + num9),
            m23: 2 * (num2 + num),
            m24: 0,
            m31: 2 * (num4 + num3),
            m32: 2 * (num2 - num),
            m33: 1 - 2 * (num8 + num9),
            m34: 0,
            m41: 0,
            m42: 0,
            m43: 0,
            m44: 1,
        }
    }

    /// `value` with its linear 3x3 block rotated by the unit quaternion
    /// `rotation`; the fourth column is untouched.
    pub fn transform(value: Matrix, rotation: Quaternion) -> (r: Matrix)
        requires
            value@.bounded(),
            rotation@.bounded(),
        ensures
            r@ == value@.transform(rotation@),
    {
        let dx = rotation.x + rotation.x;
        let dy = rotation.y + rotation.y;
        let dz = rotation.z + rotation.z;
        proof {
            let l: int = COORD_LIMIT as int;
            lemma_mul_bound(rotation.w as int, l, dx as int, 2 * l);
            lemma_mul_bound(rotation.w as int, l, dy as int, 2 * l);
            lemma_mul_bound(rotation.w as int, l, dz as int, 2 * l);
            lemma_mul_bound(rotation.x as int, l, dx as int, 2 * l);
            lemma_mul_bound(rotation.x as int, l, dy as int, 2 * l);
            lemma_mul_bound(rotation.x as int, l, dz as int, 2 * l);
            lemma_mul_bound(rotation.y as int, l, dy as int, 2 * l);
            lemma_mul_bound(rotation.y as int, l, dz as int, 2 * l);
            lemma_mul_bound(rotation.z as int, l, dz as int, 2 * l);
        }
        let a11 = (1 - rotation.y * dy) - rotation.z * dz;
        let a12 = rotation.x * dy - rotation.w * dz;
        let a13 = rotation.x * dz + rotation.w * dy;
        let a21 = rotation.x * dy + rotation.w * dz;
        let a22 = (1 - rotation.x * dx) - rotation.z * dz;
        let a23 = rotation.y * dz - rotation.w * dx;
        let a31 = rotation.x * dz - rotation.w * dy;
        let a32 = rotation.y * dz + rotation.w * dx;
        let a33 = (1 - rotation.x * dx) - rotation.y * dy;
        proof {
            let l: int = COORD_LIMIT as int;
            let h: int = 1 + 4 * l * l;
            lemma_mul_bound(value.m11 as int, l, a11 as int, h);
            lemma_mul_bound(value.m12 as int, l, a12 as int, h);
            lemma_mul_bound(value.m13 as int, l, a13 as int, h);
            lemma_mul_bound(value.m11 as int, l, a21 as int, h);
            lemma_mul_bound(value.m12 as int, l, a22 as int, h);
            lemma_mul_bound(value.m13 as int, l, a23 as int, h);
            lemma_mul_bound(value.m11 as int, l, a31 as int, h);
            lemma_mul_bound(value.m12 as int, l, a32 as int, h);
            lemma_mul_bound(value.m13 as int, l, a33 as int, h);
            lemma_mul_bound(value.m21 as int, l, a11 as int, h);
            lemma_mul_bound(value.m22 as int, l, a12 as int, h);
            lemma_mul_bound(value.m23 as int, l, a13 as int, h);
            lemma_mul_bound(value.m21 as int, l, a21 as int, h);
            lemma_mul_bound(value.m22 as int, l, a22 as int, h);
            lemma_mul_bound(value.m23 as int, l, a23 as int, h);
            lemma_mul_bound(value.m21 as int, l, a31 as int, h);
            lemma_mul_bound(value.m22 as int, l, a32 as int, h);
            lemma_mul_bound(value.m23 as int, l, a33 as int, h);
            lemma_mul_bound(value.m31 as int, l, a11 as int, h);
            lemma_mul_bound(value.m32 as int, l, a12 as int, h);
            lemma_mul_bound(value.m33 as int, l, a13 as int, h);
            lemma_mul_bound(value.m31 as int, l, a21 as int, h);
            lemma_mul_bound(value.m32 as int, l, a22 as int, h);
            lemma_mul_bound(value.m33 as int, l, a23 as int, h);
            lemma_mul_bound(value.m31 as int, l, a31 as int, h);
            lemma_mul_bound(value.m32 as int, l, a32 as int, h);
            lemma_mul_bound(value.m33 as int, l, a33 as int, h);
            lemma_mul_bound(value.m41 as int, l, a11 as int, h);
            lemma_mul_bound(value.m42 as int, l, a12 as int, h);
            lemma_mul_bound(value.m43 as int, l, a13 as int, h);
            lemma_mul_bound(value.m41 as int, l, a21 as int, h);
            lemma_mul_bound(value.m42 as int, l, a22 as int, h);
            lemma_mul_bound(value.m43 as int, l, a23 as int, h);
            lemma_mul_bound(value.m41 as int, l, a31 as int, h);
            lemma_mul_bound(value.m42 as int, l, a32 as int, h);
            lemma_mul_bound(value.m43 as int, l, a33 as int, h);
        }
        Matrix {
            m11: (value.m11 * a11 + value.m12 * a12) + value.m13 * a13,
            m12: (value.m11 * a21 + value.m12 * a22) + value.m13 * a23,
            m13: (value.m11 * a31 + value.m12 * a32) + value.m13 * a33,
            m14: value.m14,
            m21: (value.m21 * a11 + value.m22 * a12) + value.m23 * a13,
            m22: (value.m21 * a21 + value.m22 * a22) + value.m23 * a23,
            m23: (value.m21 * a31 + value.m22 * a32) + value.m23 * a33,
            m24: value.m24,
            m31: (value.m31 * a11 + value.m32 * a12) + value.m33 * a13,
            m32: (value.m31 * a21 + value.m32 * a22) + value.m33 * a23,
            m33: (value.m31 * a31 + value.m32 * a32) + value.m33 * a33,
            m34: value.m34,
            m41: (value.m41 * a11 + value.m42 * a12) + value.m43 * a13,
            m42: (value.m41 * a21 + value.m42 * a22) + value.m43 * a23,
            m43: (value.m41 * a31 + value.m42 * a32) + value.m43 * a33,
            m44: value.m44,
        }
    }

    pub fn transpose(matrix: Matrix) -> (r: Matrix)
        ensures
            r@ == matrix@.transpose(),
    {
        Matrix { m11: matrix.m11, m12: matrix.m21, m13: matrix.m31, m14: matrix.m41, m21: matrix.m12, m22: matrix.m22, m23: matrix.m32, m24: matrix.m42, m31: matrix.m13, m32: matrix.m23, m33: matrix.m33, m34: matrix.m43, m41: matrix.m14, m42: matrix.m24, m43: matrix.m34, m44: matrix.m44, }
    }

    /// The determinant, by cofactor expansion along the first row.
    pub fn determinant(matrix: Matrix) -> (r: i128)
        requires
            matrix@.bounded(),
        ensures
            r == matrix@.det(),
    {
        proof {
            let l: int = COORD_LIMIT as int;
            lemma_minor_bound(matrix.m33 as int, matrix.m44 as int, matrix.m34 as int, matrix.m43 as int, l);
            lemma_minor_bound(matrix.m32 as int, matrix.m44 as int, matrix.m34 as int, matrix.m42 as int, l);
            lemma_minor_bound(matrix.m32 as int, matrix.m43 as int, matrix.m33 as int, matrix.m42 as int, l);
            lemma_minor_bound(matrix.m31 as int, matrix.m44 as int, matrix.m34 as int, matrix.m41 as int, l);
            lemma_minor_bound(matrix.m31 as int, matrix.m43 as int, matrix.m33 as int, matrix.m41 as int, l);
            lemma_minor_bound(matrix.m31 as int, matrix.m42 as int, matrix.m32 as int, matrix.m41 as int, l);
        }
        let n18 = matrix.m33 * matrix.m44 - matrix.m34 * matrix.m43;
        let n17 = matrix.m32 * matrix.m44 - matrix.m34 * matrix.m42;
        let n16 = matrix.m32 * matrix.m43 - matrix.m33 * matrix.m42;
        let n15 = matrix.m31 * matrix.m44 - matrix.m34 * matrix.m41;
        let n14 = matrix.m31 * matrix.m43 - matrix.m33 * matrix.m41;
        let n13 = matrix.m31 * matrix.m42 - matrix.m32 * matrix.m41;
        proof {
            let l: int = COORD_LIMIT as int;
            lemma_mul_bound(matrix.m22 as int, l, n18 as int, 2 * (l * l));
            lemma_mul_bound(matrix.m23 as int, l, n17 as int, 2 * (l * l));
            lemma_mul_bound(matrix.m24 as int, l, n16 as int, 2 * (l * l));
            lemma_mul_bound(matrix.m21 as int, l, n18 as int, 2 * (l * l));
            lemma_mul_bound(matrix.m23 as int, l, n15 as int, 2 * (l * l));
            lemma_mul_bound(matrix.m24 as int, l, n14 as int, 2 * (l * l));
            lemma_mul_bound(matrix.m21 as int, l, n17 as int, 2 * (l * l));
            lemma_mul_bound(matrix.m22 as int, l, n15 as int, 2 * (l * l));
            lemma_mul_bound(matrix.m24 as int, l, n13 as int, 2 * (l * l));
            lemma_mul_bound(matrix.m21 as int, l, n16 as int, 2 * (l * l));
            lemma_mul_bound(matrix.m22 as int, l, n14 as int, 2 * (l * l));
            lemma_mul_bound(matrix.m23 as int, l, n13 as int, 2 * (l * l));
        }
        let c1 = (matrix.m22 * n18 - matrix.m23 * n17) + matrix.m24 * n16;
        let c2 = (matrix.m21 * n18 - matrix.m23 * n15) + matrix.m24 * n14;
        let c3 = (matrix.m21 * n17 - matrix.m22 * n15) + matrix.m24 * n13;
        let c4 = (matrix.m21 * n16 - matrix.m22 * n14) + matrix.m23 * n13;
        proof {
            let l: int = COORD_LIMIT as int;
            lemma_mul_bound(matrix.m11 as int, l, c1 as int, 6 * (l * (l * l)));
            lemma_mul_bound(matrix.m12 as int, l, c2 as int, 6 * (l * (l * l)));
            lemma_mul_bound(matrix.m13 as int, l, c3 as int, 6 * (l * (l * l)));
            lemma_mul_bound(matrix.m14 as int, l, c4 as int, 6 * (l * (l * l)));
        }
        ((matrix.m11 * c1 - matrix.m12 * c2) + matrix.m13 * c3) - matrix.m14 * c4
    }

    /// The adjugate of `m0`: the inverse of a non-singular matrix is the
    /// adjugate scaled by the reciprocal of the determinant, and the
    /// product of `m0` with its adjugate is the determinant times the
    /// identity in either order.
    pub fn adjugate(m0: Matrix) -> (r: Matrix)
        requires
            m0@.bounded(),
        ensures
            r@ == m0@.adjugate(),
    {
        proof {
            let l: int = COORD_LIMIT as int;
            lemma_minor_bound(m0.m33 as int, m0.m44 as int, m0.m34 as int, m0.m43 as int, l);
            lemma_minor_bound(m0.m32 as int, m0.m44 as int, m0.m34 as int, m0.m42 as int, l);
            lemma_minor_bound(m0.m32 as int, m0.m43 as int, m0.m33 as int, m0.m42 as int, l);
            lemma_minor_bound(m0.m31 as int, m0.m44 as int, m0.m34 as int, m0.m41 as int, l);
            lemma_minor_bound(m0.m31 as int, m0.m43 as int, m0.m33 as int, m0.m41 as int, l);
            lemma_minor_bound(m0.m31 as int, m0.m42 as int, m0.m32 as int, m0.m41 as int, l);
            lemma_minor_bound(m0.m23 as int, m0.m44 as int, m0.m24 as int, m0.m43 as int, l);
            lemma_minor_bound(m0.m22 as int, m0.m44 as int, m0.m24 as int, m0.m42 as int, l);
            lemma_minor_bound(m0.m22 as int, m0.m43 as int, m0.m23 as int, m0.m42 as int, l);
            lemma_minor_bound(m0.m21 as int, m0.m44 as int, m0.m24 as int, m0.m41 as int, l);
            lemma_minor_bound(m0.m21 as int, m0.m43 as int, m0.m23 as int, m0.m41 as int, l);
            lemma_minor_bound(m0.m21 as int, m0.m42 as int, m0.m22 as int, m0.m41 as int, l);
            lemma_minor_bound(m0.m23 as int, m0.m34 as int, m0.m24 as int, m0.m33 as int, l);
            lemma_minor_bound(m0.m22 as int, m0.m34 as int, m0.m24 as int, m0.m32 as int, l);
            lemma_minor_bound(m0.m22 as int, m0.m33 as int, m0.m23 as int, m0.m32 as int, l);
            lemma_minor_bound(m0.m21 as int, m0.m34 as int, m0.m24 as int, m0.m31 as int, l);
            lemma_minor_bound(m0.m21 as int, m0.m33 as int, m0.m23 as int, m0.m31 as int, l);
            lemma_minor_bound(m0.m21 as int, m0.m32 as int, m0.m22 as int, m0.m31 as int, l);
        }
        let n23 = m0.m33 * m0.m44 - m0.m34 * m0.m43;
        let n22 = m0.m32 * m0.m44 - m0.m34 * m0.m42;
        let n21 = m0.m32 * m0.m43 - m0.m33 * m0.m42;
        let n20 = m0.m31 * m0.m44 - m0.m34 * m0.m41;
        let n19 = m0.m31 * m0.m43 - m0.m33 * m0.m41;
        let n18 = m0.m31 * m0.m42 - m0.m32 * m0.m41;
        let n35 = m0.m23 * m0.m44 - m0.m24 * m0.m43;
        let n34 = m0.m22 * m0.m44 - m0.m24 * m0.m42;
        let n33 = m0.m22 * m0.m43 - m0.m23 * m0.m42;
        let n32 = m0.m21 * m0.m44 - m0.m24 * m0.m41;
        let n31 = m0.m21 * m0.m43 - m0.m23 * m0.m41;
        let n30 = m0.m21 * m0.m42 - m0.m22 * m0.m41;
        let n29 = m0.m23 * m0.m34 - m0.m24 * m0.m33;
        let n28 = m0.m22 * m0.m34 - m0.m24 * m0.m32;
        let n27 = m0.m22 * m0.m33 - m0.m23 * m0.m32;
        let n26 = m0.m21 * m0.m34 - m0.m24 * m0.m31;
        let n25 = m0.m21 * m0.m33 - m0.m23 * m0.m31;
        let n24 = m0.m21 * m0.m32 - m0.m22 * m0.m31;
        proof {
            let l: int = COORD_LIMIT as int;
            lemma_mul_bound(m0.m22 as int, l, n23 as int, 2 * (l * l));
            lemma_mul_bound(m0.m23 as int, l, n22 as int, 2 * (l * l));
            lemma_mul_bound(m0.m24 as int, l, n21 as int, 2 * (l * l));
            lemma_mul_bound(m0.m12 as int, l, n23 as int, 2 * (l * l));
            lemma_mul_bound(m0.m13 as int, l, n22 as int, 2 * (l * l));
            lemma_mul_bound(m0.m14 as int, l, n21 as int, 2 * (l * l));
            lemma_mul_bound(m0.m12 as int, l, n35 as int, 2 * (l * l));
            lemma_mul_bound(m0.m13 as int, l, n34 as int, 2 * (l * l));
            lemma_mul_bound(m0.m14 as int, l, n33 as int, 2 * (l * l));
            lemma_mul_bound(m0.m12 as int, l, n29 as int, 2 * (l * l));
            lemma_mul_bound(m0.m13 as int, l, n28 as int, 2 * (l * l));
            lemma_mul_bound(m0.m14 as int, l, n27 as int, 2 * (l * l));
            lemma_mul_bound(m0.m21 as int, l, n23 as int, 2 * (l * l));
            lemma_mul_bound(m0.m23 as int, l, n20 as int, 2 * (l * l));
            lemma_mul_bound(m0.m24 as int, l, n19 as int, 2 * (l * l));
            lemma_mul_bound(m0.m11 as int, l, n23 as int, 2 * (l * l));
            lemma_mul_bound(m0.m13 as int, l, n20 as int, 2 * (l * l));
            lemma_mul_bound(m0.m14 as int, l, n19 as int, 2 * (l * l));
            lemma_mul_bound(m0.m11 as int, l, n35 as int, 2 * (l * l));
            lemma_mul_bound(m0.m13 as int, l, n32 as int, 2 * (l * l));
            lemma_mul_bound(m0.m14 as int, l, n31 as int, 2 * (l * l));
            lemma_mul_bound(m0.m11 as int, l, n29 as int, 2 * (l * l));
            lemma_mul_bound(m0.m13 as int, l, n26 as int, 2 * (l * l));
            lemma_mul_bound(m0.m14 as int, l, n25 as int, 2 * (l * l));
            lemma_mul_bound(m0.m21 as int, l, n22 as int, 2 * (l * l));
            lemma_mul_bound(m0.m22 as int, l, n20 as int, 2 * (l * l));
            lemma_mul_bound(m0.m24 as int, l, n18 as int, 2 * (l * l));
            lemma_mul_bound(m0.m11 as int, l, n22 as int, 2 * (l * l));
            lemma_mul_bound(m0.m12 as int, l, n20 as int, 2 * (l * l));
            lemma_mul_bound(m0.m14 as int, l, n18 as int, 2 * (l * l));
            lemma_mul_bound(m0.m11 as int, l, n34 as int, 2 * (l * l));
            lemma_mul_bound(m0.m12 as int, l, n32 as int, 2 * (l * l));
            lemma_mul_bound(m0.m14 as int, l, n30 as int, 2 * (l * l));
            lemma_mul_bound(m0.m11 as int, l, n28 as int, 2 * (l * l));
            lemma_mul_bound(m0.m12 as int, l, n26 as int, 2 * (l * l));
            lemma_mul_bound(m0.m14 as int, l, n24 as int, 2 * (l * l));
            lemma_mul_bound(m0.m21 as int, l, n21 as int, 2 * (l * l));
            lemma_mul_bound(m0.m22 as int, l, n19 as int, 2 * (l * l));
            lemma_mul_bound(m0.m23 as int, l, n18 as int, 2 * (l * l));
            lemma_mul_bound(m0.m11 as int, l, n21 as int, 2 * (l * l));
            lemma_mul_bound(m0.m12 as int, l, n19 as int, 2 * (l * l));
            lemma_mul_bound(m0.m13 as int, l, n18 as int, 2 * (l * l));
            lemma_mul_bound(m0.m11 as int, l, n33 as int, 2 * (l * l));
            lemma_mul_bound(m0.m12 as int, l, n31 as int, 2 * (l * l));
            lemma_mul_bound(m0.m13 as int, l, n30 as int, 2 * (l * l));
            lemma_mul_bound(m0.m11 as int, l, n27 as int, 2 * (l * l));
            lemma_mul_bound(m0.m12 as int, l, n25 as int, 2 * (l * l));
            lemma_mul_bound(m0.m13 as int, l, n24 as int, 2 * (l * l));
        }
        Matrix {
            m11: (m0.m22 * n23 - m0.m23 * n22) + m0.m24 * n21,
            m12: -((m0.m12 * n23 - m0.m13 * n22) + m0.m14 * n21),
            m13: (m0.m12 * n35 - m0.m13 * n34) + m0.m14 * n33,
            m14: -((m0.m12 * n29 - m0.m13 * n28) + m0.m14 * n27),
            m21: -((m0.m21 * n23 - m0.m23 * n20) + m0.m24 * n19),
            m22: (m0.m11 * n23 - m0.m13 * n20) + m0.m14 * n19,
            m23: -((m0.m11 * n35 - m0.m13 * n32) + m0.m14 * n31),
            m24: (m0.m11 * n29 - m0.m13 * n26) + m0.m14 * n25,
            m31: (m0.m21 * n22 - m0.m22 * n20) + m0.m24 * n18,
            m32: -((m0.m11 * n22 - m0.m12 * n20) + m0.m14 * n18),
            m33: (m0.m11 * n34 - m0.m12 * n32) + m0.m14 * n30,
            m34: -((m0.m11 * n28 - m0.m12 * n26) + m0.m14 * n24),
            m41: -((m0.m21 * n21 - m0.m22 * n19) + m0.m23 * n18),
            m42: (m0.m11 * n21 - m0.m12 * n19) + m0.m13 * n18,
            m43: -((m0.m11 * n33 - m0.m12 * n31) + m0.m13 * n30),
            m44: (m0.m11 * n27 - m0.m12 * n25) + m0.m13 * n24,
        }
    }

    /// Componentwise unclamped linear interpolation from `m0` to `m1`.
    pub fn lerp(m0: Matrix, m1: Matrix, amount: i128) -> (r: Matrix)
        requires
            m0@.bounded(),
            m1@.bounded(),
            in_range(amount as int),
        ensures
            r@ == m0@.lerp(m1@, amount as int),
    {
        proof {
            let l: int = COORD_LIMIT as int;
            lemma_mul_bound(m1.m11 as int - m0.m11 as int, 2 * l, amount as int, l);
            lemma_mul_bound(m1.m12 as int - m0.m12 as int, 2 * l, amount as int, l);
            lemma_mul_bound(m1.m13 as int - m0.m13 as int, 2 * l, amount as int, l);
            lemma_mul_bound(m1.m14 as int - m0.m14 as int, 2 * l, amount as int, l);
            lemma_mul_bound(m1.m21 as int - m0.m21 as int, 2 * l, amount as int, l);
            lemma_mul_bound(m1.m22 as int - m0.m22 as int, 2 * l, amount as int, l);
            lemma_mul_bound(m1.m23 as int - m0.m23 as int, 2 * l, amount as int, l);
            lemma_mul_bound(m1.m24 as int - m0.m24 as int, 2 * l, amount as int, l);
            lemma_mul_bound(m1.m31 as int - m0.m31 as int, 2 * l, amount as int, l);
            lemma_mul_bound(m1.m32 as int - m0.m32 as int, 2 * l, amount as int, l);
            lemma_mul_bound(m1.m33 as int - m0.m33 as int, 2 * l, amount as int, l);
            lemma_mul_bound(m1.m34 as int - m0.m34 as int, 2 * l, amount as int, l);
            lemma_mul_bound(m1.m41 as int - m0.m41 as int, 2 * l, amount as int, l);
            lemma_mul_bound(m1.m42 as int - m0.m42 as int, 2 * l, amount as int, l);
            lemma_mul_bound(m1.m43 as int - m0.m43 as int, 2 * l, amount as int, l);
            lemma_mul_bound(m1.m44 as int - m0.m44 as int, 2 * l, amount as int, l);
        }
        Matrix {
            m11: m0.m11 + (m1.m11 - m0.m11) * amount,
            m12: m0.m12 + (m1.m12 - m0.m12) * amount,
            m13: m0.m13 + (m1.m13 - m0.m13) * amount,
            m14: m0.m14 + (m1.m14 - m0.m14) * amount,
            m21: m0.m21 + (m1.m21 - m0.m21) * amount,
            m22: m0.m22 + (m1.m22 - m0.m22) * amount,
            m23: m0.m23 + (m1.m23 - m0.m23) * amount,
            m24: m0.m24 + (m1.m24 - m0.m24) * amount,
            m31: m0.m31 + (m1.m31 - m0.m31) * amount,
            m32: m0.m32 + (m1.m32 - m0.m32) * amount,
            m33: m0.m33 + (m1.m33 - m0.m33) * amount,
            m34: m0.m34 + (m1.m34 - m0.m34) * amount,
            m41: m0.m41 + (m1.m41 - m0.m41) * amount,
            m42: m0.m42 + (m1.m42 - m0.m42) * amount,
            m43: m0.m43 + (m1.m43 - m0.m43) * amount,
            m44: m0.m44 + (m1.m44 - m0.m44) * amount,
        }
    }

    pub fn negate(m0: Matrix) -> (r: Matrix)
        requires
            m0@.negatable(),
        ensures
            r@ == m0@.neg(),
    {
        Matrix { m11: -m0.m11, m12: -m0.m12, m13: -m0.m13, m14: -m0.m14, m21: -m0.m21, m22: -m0.m22, m23: -m0.m23, m24: -m0.m24, m31: -m0.m31, m32: -m0.m32, m33: -m0.m33, m34: -m0.m34, m41: -m0.m41, m42: -m0.m42, m43: -m0.m43, m44: -m0.m44, }
    }

    pub fn add(self, rhs: Matrix) -> (r: Matrix)
        requires
            self@.bounded(),
            rhs@.bounded(),
        ensures
            r@ == self@.add(rhs@),
    {
        Matrix { m11: self.m11 + rhs.m11, m12: self.m12 + rhs.m12, m13: self.m13 + rhs.m13, m14: self.m14 + rhs.m14, m21: self.m21 + rhs.m21, m22: self.m22 + rhs.m22, m23: self.m23 + rhs.m23, m24: self.m24 + rhs.m24, m31: self.m31 + rhs.m31, m32: self.m32 + rhs.m32, m33: self.m33 + rhs.m33, m34: self.m34 + rhs.m34, m41: self.m41 + rhs.m41, m42: self.m42 + rhs.m42, m43: self.m43 + rhs.m43, m44: self.m44 + rhs.m44, }
    }

    pub fn sub(self, rhs: Matrix) -> (r: Matrix)
        requires
            self@.bounded(),
            rhs@.bounded(),
        ensures
            r@ == self@.sub(rhs@),
    {
        Matrix { m11: self.m11 - rhs.m11, m12: self.m12 - rhs.m12, m13: self.m13 - rhs.m13, m14: self.m14 - rhs.m14, m21: self.m21 - rhs.m21, m22: self.m22 - rhs.m22, m23: self.m23 - rhs.m23, m24: self.m24 - rhs.m24, m31: self.m31 - rhs.m31, m32: self.m32 - rhs.m32, m33: self.m33 - rhs.m33, m34: self.m34 - rhs.m34, m41: self.m41 - rhs.m41, m42: self.m42 - rhs.m42, m43: self.m43 - rhs.m43, m44: self.m44 - rhs.m44, }
    }

    /// Scalar product.
    pub fn mul_scalar(self, rhs: i128) -> (r: Matrix)
        requires
            self@.bounded(),
            in_range(rhs as int),
        ensures
            r@ == self@.mul_scalar(rhs as int),
    {
        proof {
            let l: int = COORD_LIMIT as int;
            lemma_mul_bound(self.m11 as int, l, rhs as int, l);
            lemma_mul_bound(self.m12 as int, l, rhs as int, l);
            lemma_mul_bound(self.m13 as int, l, rhs as int, l);
            lemma_mul_bound(self.m14 as int, l, rhs as int, l);
            lemma_mul_bound(self.m21 as int, l, rhs as int, l);
            lemma_mul_bound(self.m22 as int, l, rhs as int, l);
            lemma_mul_bound(self.m23 as int, l, rhs as int, l);
            lemma_mul_bound(self.m24 as int, l, rhs as int, l);
            lemma_mul_bound(self.m31 as int, l, rhs as int, l);
            lemma_mul_bound(self.m32 as int, l, rhs as int, l);
            lemma_mul_bound(self.m33 as int, l, rhs as int, l);
            lemma_mul_bound(self.m34 as int, l, rhs as int, l);
            lemma_mul_bound(self.m41 as int, l, rhs as int, l);
            lemma_mul_bound(self.m42 as int, l, rhs as int, l);
            lemma_mul_bound(self.m43 as int, l, rhs as int, l);
            lemma_mul_bound(self.m44 as int, l, rhs as int, l);
        }
        Matrix {
            m11: self.m11 * rhs,
            m12: self.m12 * rhs,
            m13: self.m13 * rhs,
            m14: self.m14 * rhs,
            m21: self.m21 * rhs,
            m22: self.m22 * rhs,
            m23: self.m23 * rhs,
            m24: self.m24 * rhs,
            m31: self.m31 * rhs,
            m32: self.m32 * rhs,
            m33: self.m33 * rhs,
            m34: self.m34 * rhs,
            m41: self.m41 * rhs,
            m42: self.m42 * rhs,
            m43: self.m43 * rhs,
            m44: self.m44 * rhs,
        }
    }

    /// The matrix product, row by column.
    pub fn mul(m0: Matrix, m1: Matrix) -> (r: Matrix)
        requires
            m0@.bounded(),
            m1@.bounded(),
        ensures
            r@ == m0@.mul(m1@),
    {
        proof {
            let l: int = COORD_LIMIT as int;
            lemma_mul_bound(m0.m11 as int, l, m1.m11 as int, l);
            lemma_mul_bound(m0.m12 as int, l, m1.m21 as int, l);
            lemma_mul_bound(m0.m13 as int, l, m1.m31 as int, l);
            lemma_mul_bound(m0.m14 as int, l, m1.m41 as int, l);
            lemma_mul_bound(m0.m11 as int, l, m1.m12 as int, l);
            lemma_mul_bound(m0.m12 as int, l, m1.m22 as int, l);
            lemma_mul_bound(m0.m13 as int, l, m1.m32 as int, l);
            lemma_mul_bound(m0.m14 as int, l, m1.m42 as int, l);
            lemma_mul_bound(m0.m11 as int, l, m1.m13 as int, l);
            lemma_mul_bound(m0.m12 as int, l, m1.m23 as int, l);
            lemma_mul_bound(m0.m13 as int, l, m1.m33 as int, l);
            lemma_mul_bound(m0.m14 as int, l, m1.m43 as int, l);
            lemma_mul_bound(m0.m11 as int, l, m1.m14 as int, l);
            lemma_mul_bound(m0.m12 as int, l, m1.m24 as int, l);
            lemma_mul_bound(m0.m13 as int, l, m1.m34 as int, l);
            lemma_mul_bound(m0.m14 as int, l, m1.m44 as int, l);
            lemma_mul_bound(m0.m21 as int, l, m1.m11 as int, l);
            lemma_mul_bound(m0.m22 as int, l, m1.m21 as int, l);
            lemma_mul_bound(m0.m23 as int, l, m1.m31 as int, l);
            lemma_mul_bound(m0.m24 as int, l, m1.m41 as int, l);
            lemma_mul_bound(m0.m21 as int, l, m1.m12 as int, l);
            lemma_mul_bound(m0.m22 as int, l, m1.m22 as int, l);
            lemma_mul_bound(m0.m23 as int, l, m1.m32 as int, l);
            lemma_mul_bound(m0.m24 as int, l, m1.m42 as int, l);
            lemma_mul_bound(m0.m21 as int, l, m1.m13 as int, l);
            lemma_mul_bound(m0.m22 as int, l, m1.m23 as int, l);
            lemma_mul_bound(m0.m23 as int, l, m1.m33 as int, l);
            lemma_mul_bound(m0.m24 as int, l, m1.m43 as int, l);
            lemma_mul_bound(m0.m21 as int, l, m1.m14 as int, l);
            lemma_mul_bound(m0.m22 as int, l, m1.m24 as int, l);
            lemma_mul_bound(m0.m23 as int, l, m1.m34 as int, l);
            lemma_mul_bound(m0.m24 as int, l, m1.m44 as int, l);
            lemma_mul_bound(m0.m31 as int, l, m1.m11 as int, l);
            lemma_mul_bound(m0.m32 as int, l, m1.m21 as int, l);
            lemma_mul_bound(m0.m33 as int, l, m1.m31 as int, l);
            lemma_mul_bound(m0.m34 as int, l, m1.m41 as int, l);
            lemma_mul_bound(m0.m31 as int, l, m1.m12 as int, l);
            lemma_mul_bound(m0.m32 as int, l, m1.m22 as int, l);
            lemma_mul_bound(m0.m33 as int, l, m1.m32 as int, l);
            lemma_mul_bound(m0.m34 as int, l, m1.m42 as int, l);
            lemma_mul_bound(m0.m31 as int, l, m1.m13 as int, l);
            lemma_mul_bound(m0.m32 as int, l, m1.m23 as int, l);
            lemma_mul_bound(m0.m33 as int, l, m1.m33 as int, l);
            lemma_mul_bound(m0.m34 as int, l, m1.m43 as int, l);
            lemma_mul_bound(m0.m31 as int, l, m1.m14 as int, l);
            lemma_mul_bound(m0.m32 as int, l, m1.m24 as int, l);
            lemma_mul_bound(m0.m33 as int, l, m1.m34 as int, l);
            lemma_mul_bound(m0.m34 as int, l, m1.m44 as int, l);
            lemma_mul_bound(m0.m41 as int, l, m1.m11 as int, l);
            lemma_mul_bound(m0.m42 as int, l, m1.m21 as int, l);
            lemma_mul_bound(m0.m43 as int, l, m1.m31 as int, l);
            lemma_mul_bound(m0.m44 as int, l, m1.m41 as int, l);
            lemma_mul_bound(m0.m41 as int, l, m1.m12 as int, l);
            lemma_mul_bound(m0.m42 as int, l, m1.m22 as int, l);
            lemma_mul_bound(m0.m43 as int, l, m1.m32 as int, l);
            lemma_mul_bound(m0.m44 as int, l, m1.m42 as int, l);
            lemma_mul_bound(m0.m41 as int, l, m1.m13 as int, l);
            lemma_mul_bound(m0.m42 as int, l, m1.m23 as int, l);
            lemma_mul_bound(m0.m43 as int, l, m1.m33 as int, l);
            lemma_mul_bound(m0.m44 as int, l, m1.m43 as int, l);
            lemma_mul_bound(m0.m41 as int, l, m1.m14 as int, l);
            lemma_mul_bound(m0.m42 as int, l, m1.m24 as int, l);
            lemma_mul_bound(m0.m43 as int, l, m1.m34 as int, l);
            lemma_mul_bound(m0.m44 as int, l, m1.m44 as int, l);
        }
        Matrix {
            m11: ((m0.m11 * m1.m11 + m0.m12 * m1.m21) + m0.m13 * m1.m31) + m0.m14 * m1.m41,
            m12: ((m0.m11 * m1.m12 + m0.m12 * m1.m22) + m0.m13 * m1.m32) + m0.m14 * m1.m42,
            m13: ((m0.m11 * m1.m13 + m0.m12 * m1.m23) + m0.m13 * m1.m33) + m0.m14 * m1.m43,
            m14: ((m0.m11 * m1.m14 + m0.m12 * m1.m24) + m0.m13 * m1.m34) + m0.m14 * m1.m44,
            m21: ((m0.m21 * m1.m11 + m0.m22 * m1.m21) + m0.m23 * m1.m31) + m0.m24 * m1.m41,
            m22: ((m0.m21 * m1.m12 + m0.m22 * m1.m22) + m0.m23 * m1.m32) + m0.m24 * m1.m42,
            m23: ((m0.m21 * m1.m13 + m0.m22 * m1.m23) + m0.m23 * m1.m33) + m0.m24 * m1.m43,
            m24: ((m0.m21 * m1.m14 + m0.m22 * m1.m24) + m0.m23 * m1.m34) + m0.m24 * m1.m44,
            m31: ((m0.m31 * m1.m11 + m0.m32 * m1.m21) + m0.m33 * m1.m31) + m0.m34 * m1.m41,
            m32: ((m0.m31 * m1.m12 + m0.m32 * m1.m22) + m0.m33 * m1.m32) + m0.m34 * m1.m42,
            m33: ((m0.m31 * m1.m13 + m0.m32 * m1.m23) + m0.m33 * m1.m33) + m0.m34 * m1.m43,
            m34: ((m0.m31 * m1.m14 + m0.m32 * m1.m24) + m0.m33 * m1.m34) + m0.m34 * m1.m44,
            m41: ((m0.m41 * m1.m11 + m0.m42 * m1.m21) + m0.m43 * m1.m31) + m0.m44 * m1.m41,
            m42: ((m0.m41 * m1.m12 + m0.m42 * m1.m22) + m0.m43 * m1.m32) + m0.m44 * m1.m42,
            m43: ((m0.m41 * m1.m13 + m0.m42 * m1.m23) + m0.m43 * m1.m33) + m0.m44 * m1.m43,
            m44: ((m0.m41 * m1.m14 + m0.m42 * m1.m24) + m0.m43 * m1.m34) + m0.m44 * m1.m44,
        }
    }
}

/// Transposing twice returns the original matrix.
pub proof fn lemma_transpose_involutive(m: Mat4)
    ensures
        m.transpose().transpose() == m,
{
}

/// The determinant of the identity matrix is one; of the zero matrix, zero.
pub proof fn lemma_det_identity_zero()
    ensures
        Mat4::identity().det() == 1,
        Mat4::zero().det() == 0,
{
}

/// Interpolating by zero returns the first endpoint exactly.
pub proof fn lemma_lerp_zero(a: Mat4, b: Mat4)
    ensures
        a.lerp(b, 0) == a,
{
}

/// Interpolating by one returns the second endpoint exactly.
pub proof fn lemma_lerp_one(a: Mat4, b: Mat4)
    ensures
        a.lerp(b, 1) == b,
{
}

/// The identity matrix is neutral for the matrix product on either side.
pub proof fn lemma_mul_identity(m: Mat4)
    ensures
        m.mul(Mat4::identity()) == m,
        Mat4::identity().mul(m) == m,
{
    assert(((m.m11 * 1 + m.m12 * 0) + m.m13 * 0) + m.m14 * 0 == m.m11) by (nonlinear_arith);
    assert(((m.m11 * 0 + m.m12 * 1) + m.m13 * 0) + m.m14 * 0 == m.m12) by (nonlinear_arith);
    assert(((m.m11 * 0 + m.m12 * 0) + m.m13 * 1) + m.m14 * 0 == m.m13) by (nonlinear_arith);
    assert(((m.m11 * 0 + m.m12 * 0) + m.m13 * 0) + m.m14 * 1 == m.m14) by (nonlinear_arith);
    assert(((m.m21 * 1 + m.m22 * 0) + m.m23 * 0) + m.m24 * 0 == m.m21) by (nonlinear_arith);
    assert(((m.m21 * 0 + m.m22 * 1) + m.m23 * 0) + m.m24 * 0 == m.m22) by (nonlinear_arith);
    assert(((m.m21 * 0 + m.m22 * 0) + m.m23 * 1) + m.m24 * 0 == m.m23) by (nonlinear_arith);
    assert(((m.m21 * 0 + m.m22 * 0) + m.m23 * 0) + m.m24 * 1 == m.m24) by (nonlinear_arith);
    assert(((m.m31 * 1 + m.m32 * 0) + m.m33 * 0) + m.m34 * 0 == m.m31) by (nonlinear_arith);
    assert(((m.m31 * 0 + m.m32 * 1) + m.m33 * 0) + m.m34 * 0 == m.m32) by (nonlinear_arith);
    assert(((m.m31 * 0 + m.m32 * 0) + m.m33 * 1) + m.m34 * 0 == m.m33) by (nonlinear_arith);
    assert(((m.m31 * 0 + m.m32 * 0) + m.m33 * 0) + m.m34 * 1 == m.m34) by (nonlinear_arith);
    assert(((m.m41 * 1 + m.m42 * 0) + m.m43 * 0) + m.m44 * 0 == m.m41) by (nonlinear_arith);
    assert(((m.m41 * 0 + m.m42 * 1) + m.m43 * 0) + m.m44 * 0 == m.m42) by (nonlinear_arith);
    assert(((m.m41 * 0 + m.m42 * 0) + m.m43 * 1) + m.m44 * 0 == m.m43) by (nonlinear_arith);
    assert(((m.m41 * 0 + m.m42 * 0) + m.m43 * 0) + m.m44 * 1 == m.m44) by (nonlinear_arith);
    assert(((1 * m.m11 + 0 * m.m21) + 0 * m.m31) + 0 * m.m41 == m.m11) by (nonlinear_arith);
    assert(((1 * m.m12 + 0 * m.m22) + 0 * m.m32) + 0 * m.m42 == m.m12) by (nonlinear_arith);
    assert(((1 * m.m13 + 0 * m.m23) + 0 * m.m33) + 0 * m.m43 == m.m13) by (nonlinear_arith);
    assert(((1 * m.m14 + 0 * m.m24) + 0 * m.m34) + 0 * m.m44 == m.m14) by (nonlinear_arith);
    assert(((0 * m.m11 + 1 * m.m21) + 0 * m.m31) + 0 * m.m41 == m.m21) by (nonlinear_arith);
    assert(((0 * m.m12 + 1 * m.m22) + 0 * m.m32) + 0 * m.m42 == m.m22) by (nonlinear_arith);
    assert(((0 * m.m13 + 1 * m.m23) + 0 * m.m33) + 0 * m.m43 == m.m23) by (nonlinear_arith);
    assert(((0 * m.m14 + 1 * m.m24) + 0 * m.m34) + 0 * m.m44 == m.m24) by (nonlinear_arith);
    assert(((0 * m.m11 + 0 * m.m21) + 1 * m.m31) + 0 * m.m41 == m.m31) by (nonlinear_arith);
    assert(((0 * m.m12 + 0 * m.m22) + 1 * m.m32) + 0 * m.m42 == m.m32) by (nonlinear_arith);
    assert(((0 * m.m13 + 0 * m.m23) + 1 * m.m33) + 0 * m.m43 == m.m33) by (nonlinear_arith);
    assert(((0 * m.m14 + 0 * m.m24) + 1 * m.m34) + 0 * m.m44 == m.m34) by (nonlinear_arith);
    assert(((0 * m.m11 + 0 * m.m21) + 0 * m.m31) + 1 * m.m41 == m.m41) by (nonlinear_arith);
    assert(((0 * m.m12 + 0 * m.m22) + 0 * m.m32) + 1 * m.m42 == m.m42) by (nonlinear_arith);
    assert(((0 * m.m13 + 0 * m.m23) + 0 * m.m33) + 1 * m.m43 == m.m43) by (nonlinear_arith);
    assert(((0 * m.m14 + 0 * m.m24) + 0 * m.m34) + 1 * m.m44 == m.m44) by (nonlinear_arith);
}

/// A rotation about the x axis is orthogonal: its product with its own
/// transpose is the identity, whenever `(s, c)` lies on the unit circle.
pub proof fn lemma_rotation_x_orthogonal(s: int, c: int)
    requires
        s * s + c * c == 1,
    ensures
        Mat4::rotation_x(s, c).mul(Mat4::rotation_x(s, c).transpose()) == Mat4::identity(),
{
    assert(Mat4::rotation_x(s, c).mul(Mat4::rotation_x(s, c).transpose()) == Mat4::identity())
        by (nonlinear_arith)
        requires
            s * s + c * c == 1,
    ;
}

/// A rotation about the y axis is orthogonal, whenever `(s, c)` lies on
/// the unit circle.
pub proof fn lemma_rotation_y_orthogonal(s: int, c: int)
    requires
        s * s + c * c == 1,
    ensures
        Mat4::rotation_y(s, c).mul(Mat4::rotation_y(s, c).transpose()) == Mat4::identity(),
{
    assert(Mat4::rotation_y(s, c).mul(Mat4::rotation_y(s, c).transpose()) == Mat4::identity())
        by (nonlinear_arith)
        requires
            s * s + c * c == 1,
    ;
}

/// A rotation about the z axis is orthogonal, whenever `(s, c)` lies on
/// the unit circle.
pub proof fn lemma_rotation_z_orthogonal(s: int, c: int)
    requires
        s * s + c * c == 1,
    ensures
        Mat4::rotation_z(s, c).mul(Mat4::rotation_z(s, c).transpose()) == Mat4::identity(),
{
    assert(Mat4::rotation_z(s, c).mul(Mat4::rotation_z(s, c).transpose()) == Mat4::identity())
        by (nonlinear_arith)
        requires
            s * s + c * c == 1,
    ;
}

/// The Rodrigues rotation about a unit axis is orthogonal, whenever
/// `(s, c)` lies on the unit circle.
pub proof fn lemma_rotation_axis_orthogonal(axis: Vec3, s: int, c: int)
    requires
        axis.is_unit(),
        s * s + c * c == 1,
    ensures
        Mat4::rotation_axis(axis, s, c).mul(Mat4::rotation_axis(axis, s, c).transpose())
            == Mat4::identity(),
{
    assert(Mat4::rotation_axis(axis, s, c).mul(Mat4::rotation_axis(axis, s, c).transpose())
        == Mat4::identity()) by (nonlinear_arith)
        requires
            axis.x * axis.x + axis.y * axis.y + axis.z * axis.z == 1,
            s * s + c * c == 1,
    ;
}

/// Carrying a point through a translation matrix adds the translation
/// vector, exactly.
pub proof fn lemma_transform_translation(p: Vec3, v: Vec3)
    ensures
        p.transform(Mat4::translation(v)) == p.add(v),
{
    assert(((p.x * 1 + p.y * 0) + p.z * 0) + v.x == p.x + v.x) by (nonlinear_arith);
    assert(((p.x * 0 + p.y * 1) + p.z * 0) + v.y == p.y + v.y) by (nonlinear_arith);
    assert(((p.x * 0 + p.y * 0) + p.z * 1) + v.z == p.z + v.z) by (nonlinear_arith);
}

/// The rotation matrix of a unit quaternion is orthogonal.
pub proof fn lemma_from_quaternion_orthogonal(q: Quat)
    requires
        q.is_unit(),
    ensures
        Mat4::from_quaternion(q).mul(Mat4::from_quaternion(q).transpose()) == Mat4::identity(),
{
    assert(Mat4::from_quaternion(q).mul(Mat4::from_quaternion(q).transpose())
        == Mat4::identity()) by (nonlinear_arith)
        requires
            q.x * q.x + q.y * q.y + q.z * q.z + q.w * q.w == 1,
    ;
}

/// The rotation matrix of a product of unit quaternions is the product
/// of their rotation matrices, in the row-vector order: the matrix of the
/// rotation that applies `p` first and `q` second is the matrix of `p`
/// times the matrix of `q`.
pub proof fn lemma_from_quaternion_composes(p: Quat, q: Quat)
    requires
        p.is_unit(),
        q.is_unit(),
    ensures
        Mat4::from_quaternion(q.mul(p)) == Mat4::from_quaternion(p).mul(Mat4::from_quaternion(q)),
{
    assert(Mat4::from_quaternion(q.mul(p)) == Mat4::from_quaternion(p).mul(
    Mat4::from_quaternion(q))) by (nonlinear_arith)
        requires
            p.x * p.x + p.y * p.y + p.z * p.z + p.w * p.w == 1,
            q.x * q.x + q.y * q.y + q.z * q.z + q.w * q.w == 1,
    ;
}

} // verus!
