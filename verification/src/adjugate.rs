//! The adjugate law: a matrix times its adjugate, in either order, is the
//! determinant times the identity. The proof normalizes both sides into
//! sums of reordered four-factor monomials through a handful of generic
//! ring lemmas, each established once by the nonlinear solver.
use vstd::prelude::*;

use crate::matrix::Mat4;

verus! {

proof fn lemma_comm(a: int, b: int)
    by (nonlinear_arith)
    ensures
        a * b == b * a,
{
}

proof fn lemma_dist3(a: int, x: int, y: int, z: int)
    by (nonlinear_arith)
    ensures
        a * ((x - y) + z) == (a * x - a * y) + a * z,
{
}

proof fn lemma_dist3_neg(a: int, x: int, y: int, z: int)
    by (nonlinear_arith)
    ensures
        a * (-((x - y) + z)) == -((a * x - a * y) + a * z),
{
}

proof fn lemma_expand6(a: int, b: int, p: int, q: int, r: int, s: int)
    by (nonlinear_arith)
    ensures
        a * (b * (p * q - r * s)) == a * (b * (p * q)) - a * (b * (r * s)),
{
}

proof fn lemma_mul4_perm(a: int, b: int, c: int, d: int)
    by (nonlinear_arith)
    ensures
        a * (b * (c * d)) == a * (b * (c * d)),
        a * (b * (c * d)) == a * (b * (d * c)),
        a * (b * (c * d)) == a * (c * (b * d)),
        a * (b * (c * d)) == a * (c * (d * b)),
        a * (b * (c * d)) == a * (d * (b * c)),
        a * (b * (c * d)) == a * (d * (c * b)),
        a * (b * (c * d)) == b * (a * (c * d)),
        a * (b * (c * d)) == b * (a * (d * c)),
        a * (b * (c * d)) == b * (c * (a * d)),
        a * (b * (c * d)) == b * (c * (d * a)),
        a * (b * (c * d)) == b * (d * (a * c)),
        a * (b * (c * d)) == b * (d * (c * a)),
        a * (b * (c * d)) == c * (a * (b * d)),
        a * (b * (c * d)) == c * (a * (d * b)),
        a * (b * (c * d)) == c * (b * (a * d)),
        a * (b * (c * d)) == c * (b * (d * a)),
        a * (b * (c * d)) == c * (d * (a * b)),
        a * (b * (c * d)) == c * (d * (b * a)),
        a * (b * (c * d)) == d * (a * (b * c)),
        a * (b * (c * d)) == d * (a * (c * b)),
        a * (b * (c * d)) == d * (b * (a * c)),
        a * (b * (c * d)) == d * (b * (c * a)),
        a * (b * (c * d)) == d * (c * (a * b)),
        a * (b * (c * d)) == d * (c * (b * a)),
{
}

proof fn lemma_times_adjugate_entry_11(m: Mat4)
    ensures
        m.mul(m.adjugate()).m11 == m.det(),
{
    lemma_dist3(m.m11, m.m22 * (m.m33 * m.m44 - m.m34 * m.m43), m.m23 * (m.m32 * m.m44 - m.m34 * m.m42), m.m24 * (m.m32 * m.m43 - m.m33 * m.m42));
    lemma_dist3_neg(m.m12, m.m21 * (m.m33 * m.m44 - m.m34 * m.m43), m.m23 * (m.m31 * m.m44 - m.m34 * m.m41), m.m24 * (m.m31 * m.m43 - m.m33 * m.m41));
    lemma_dist3(m.m13, m.m21 * (m.m32 * m.m44 - m.m34 * m.m42), m.m22 * (m.m31 * m.m44 - m.m34 * m.m41), m.m24 * (m.m31 * m.m42 - m.m32 * m.m41));
    lemma_dist3_neg(m.m14, m.m21 * (m.m32 * m.m43 - m.m33 * m.m42), m.m22 * (m.m31 * m.m43 - m.m33 * m.m41), m.m23 * (m.m31 * m.m42 - m.m32 * m.m41));
    lemma_expand6(m.m11, m.m22, m.m33, m.m44, m.m34, m.m43);
    lemma_mul4_perm(m.m11, m.m22, m.m33, m.m44);
    lemma_mul4_perm(m.m11, m.m22, m.m34, m.m43);
    lemma_expand6(m.m11, m.m23, m.m32, m.m44, m.m34, m.m42);
    lemma_mul4_perm(m.m11, m.m23, m.m32, m.m44);
    lemma_mul4_perm(m.m11, m.m23, m.m34, m.m42);
    lemma_expand6(m.m11, m.m24, m.m32, m.m43, m.m33, m.m42);
    lemma_mul4_perm(m.m11, m.m24, m.m32, m.m43);
    lemma_mul4_perm(m.m11, m.m24, m.m33, m.m42);
    lemma_expand6(m.m12, m.m21, m.m33, m.m44, m.m34, m.m43);
    lemma_mul4_perm(m.m12, m.m21, m.m33, m.m44);
    lemma_mul4_perm(m.m12, m.m21, m.m34, m.m43);
    lemma_expand6(m.m12, m.m23, m.m31, m.m44, m.m34, m.m41);
    lemma_mul4_perm(m.m12, m.m23, m.m31, m.m44);
    lemma_mul4_perm(m.m12, m.m23, m.m34, m.m41);
    lemma_expand6(m.m12, m.m24, m.m31, m.m43, m.m33, m.m41);
    lemma_mul4_perm(m.m12, m.m24, m.m31, m.m43);
    lemma_mul4_perm(m.m12, m.m24, m.m33, m.m41);
    lemma_expand6(m.m13, m.m21, m.m32, m.m44, m.m34, m.m42);
    lemma_mul4_perm(m.m13, m.m21, m.m32, m.m44);
    lemma_mul4_perm(m.m13, m.m21, m.m34, m.m42);
    lemma_expand6(m.m13, m.m22, m.m31, m.m44, m.m34, m.m41);
    lemma_mul4_perm(m.m13, m.m22, m.m31, m.m44);
    lemma_mul4_perm(m.m13, m.m22, m.m34, m.m41);
    lemma_expand6(m.m13, m.m24, m.m31, m.m42, m.m32, m.m41);
    lemma_mul4_perm(m.m13, m.m24, m.m31, m.m42);
    lemma_mul4_perm(m.m13, m.m24, m.m32, m.m41);
    lemma_expand6(m.m14, m.m21, m.m32, m.m43, m.m33, m.m42);
    lemma_mul4_perm(m.m14, m.m21, m.m32, m.m43);
    lemma_mul4_perm(m.m14, m.m21, m.m33, m.m42);
    lemma_expand6(m.m14, m.m22, m.m31, m.m43, m.m33, m.m41);
    lemma_mul4_perm(m.m14, m.m22, m.m31, m.m43);
    lemma_mul4_perm(m.m14, m.m22, m.m33, m.m41);
    lemma_expand6(m.m14, m.m23, m.m31, m.m42, m.m32, m.m41);
    lemma_mul4_perm(m.m14, m.m23, m.m31, m.m42);
    lemma_mul4_perm(m.m14, m.m23, m.m32, m.m41);
    lemma_dist3(m.m11, m.m22 * (m.m33 * m.m44 - m.m34 * m.m43), m.m23 * (m.m32 * m.m44 - m.m34 * m.m42), m.m24 * (m.m32 * m.m43 - m.m33 * m.m42));
    lemma_expand6(m.m11, m.m22, m.m33, m.m44, m.m34, m.m43);
    lemma_mul4_perm(m.m11, m.m22, m.m33, m.m44);
    lemma_mul4_perm(m.m11, m.m22, m.m34, m.m43);
    lemma_expand6(m.m11, m.m23, m.m32, m.m44, m.m34, m.m42);
    lemma_mul4_perm(m.m11, m.m23, m.m32, m.m44);
    lemma_mul4_perm(m.m11, m.m23, m.m34, m.m42);
    lemma_expand6(m.m11, m.m24, m.m32, m.m43, m.m33, m.m42);
    lemma_mul4_perm(m.m11, m.m24, m.m32, m.m43);
    lemma_mul4_perm(m.m11, m.m24, m.m33, m.m42);
    lemma_dist3(m.m12, m.m21 * (m.m33 * m.m44 - m.m34 * m.m43), m.m23 * (m.m31 * m.m44 - m.m34 * m.m41), m.m24 * (m.m31 * m.m43 - m.m33 * m.m41));
    lemma_expand6(m.m12, m.m21, m.m33, m.m44, m.m34, m.m43);
    lemma_mul4_perm(m.m12, m.m21, m.m33, m.m44);
    lemma_mul4_perm(m.m12, m.m21, m.m34, m.m43);
    lemma_expand6(m.m12, m.m23, m.m31, m.m44, m.m34, m.m41);
    lemma_mul4_perm(m.m12, m.m23, m.m31, m.m44);
    lemma_mul4_perm(m.m12, m.m23, m.m34, m.m41);
    lemma_expand6(m.m12, m.m24, m.m31, m.m43, m.m33, m.m41);
    lemma_mul4_perm(m.m12, m.m24, m.m31, m.m43);
    lemma_mul4_perm(m.m12, m.m24, m.m33, m.m41);
    lemma_dist3(m.m13, m.m21 * (m.m32 * m.m44 - m.m34 * m.m42), m.m22 * (m.m31 * m.m44 - m.m34 * m.m41), m.m24 * (m.m31 * m.m42 - m.m32 * m.m41));
    lemma_expand6(m.m13, m.m21, m.m32, m.m44, m.m34, m.m42);
    lemma_mul4_perm(m.m13, m.m21, m.m32, m.m44);
    lemma_mul4_perm(m.m13, m.m21, m.m34, m.m42);
    lemma_expand6(m.m13, m.m22, m.m31, m.m44, m.m34, m.m41);
    lemma_mul4_perm(m.m13, m.m22, m.m31, m.m44);
    lemma_mul4_perm(m.m13, m.m22, m.m34, m.m41);
    lemma_expand6(m.m13, m.m24, m.m31, m.m42, m.m32, m.m41);
    lemma_mul4_perm(m.m13, m.m24, m.m31, m.m42);
    lemma_mul4_perm(m.m13, m.m24, m.m32, m.m41);
    lemma_dist3(m.m14, m.m21 * (m.m32 * m.m43 - m.m33 * m.m42), m.m22 * (m.m31 * m.m43 - m.m33 * m.m41), m.m23 * (m.m31 * m.m42 - m.m32 * m.m41));
    lemma_expand6(m.m14, m.m21, m.m32, m.m43, m.m33, m.m42);
    lemma_mul4_perm(m.m14, m.m21, m.m32, m.m43);
    lemma_mul4_perm(m.m14, m.m21, m.m33, m.m42);
    lemma_expand6(m.m14, m.m22, m.m31, m.m43, m.m33, m.m41);
    lemma_mul4_perm(m.m14, m.m22, m.m31, m.m43);
    lemma_mul4_perm(m.m14, m.m22, m.m33, m.m41);
    lemma_expand6(m.m14, m.m23, m.m31, m.m42, m.m32, m.m41);
    lemma_mul4_perm(m.m14, m.m23, m.m31, m.m42);
    lemma_mul4_perm(m.m14, m.m23, m.m32, m.m41);
}

proof fn lemma_times_adjugate_entry_12(m: Mat4)
    ensures
        m.mul(m.adjugate()).m12 == 0,
{
    lemma_dist3_neg(m.m11, m.m12 * (m.m33 * m.m44 - m.m34 * m.m43), m.m13 * (m.m32 * m.m44 - m.m34 * m.m42), m.m14 * (m.m32 * m.m43 - m.m33 * m.m42));
    lemma_dist3(m.m12, m.m11 * (m.m33 * m.m44 - m.m34 * m.m43), m.m13 * (m.m31 * m.m44 - m.m34 * m.m41), m.m14 * (m.m31 * m.m43 - m.m33 * m.m41));
    lemma_dist3_neg(m.m13, m.m11 * (m.m32 * m.m44 - m.m34 * m.m42), m.m12 * (m.m31 * m.m44 - m.m34 * m.m41), m.m14 * (m.m31 * m.m42 - m.m32 * m.m41));
    lemma_dist3(m.m14, m.m11 * (m.m32 * m.m43 - m.m33 * m.m42), m.m12 * (m.m31 * m.m43 - m.m33 * m.m41), m.m13 * (m.m31 * m.m42 - m.m32 * m.m41));
    lemma_expand6(m.m11, m.m12, m.m33, m.m44, m.m34, m.m43);
    lemma_mul4_perm(m.m11, m.m12, m.m33, m.m44);
    lemma_mul4_perm(m.m11, m.m12, m.m34, m.m43);
    lemma_expand6(m.m11, m.m13, m.m32, m.m44, m.m34, m.m42);
    lemma_mul4_perm(m.m11, m.m13, m.m32, m.m44);
    lemma_mul4_perm(m.m11, m.m13, m.m34, m.m42);
    lemma_expand6(m.m11, m.m14, m.m32, m.m43, m.m33, m.m42);
    lemma_mul4_perm(m.m11, m.m14, m.m32, m.m43);
    lemma_mul4_perm(m.m11, m.m14, m.m33, m.m42);
    lemma_expand6(m.m12, m.m11, m.m33, m.m44, m.m34, m.m43);
    lemma_expand6(m.m12, m.m13, m.m31, m.m44, m.m34, m.m41);
    lemma_mul4_perm(m.m12, m.m13, m.m31, m.m44);
    lemma_mul4_perm(m.m12, m.m13, m.m34, m.m41);
    lemma_expand6(m.m12, m.m14, m.m31, m.m43, m.m33, m.m41);
    lemma_mul4_perm(m.m12, m.m14, m.m31, m.m43);
    lemma_mul4_perm(m.m12, m.m14, m.m33, m.m41);
    lemma_expand6(m.m13, m.m11, m.m32, m.m44, m.m34, m.m42);
    lemma_expand6(m.m13, m.m12, m.m31, m.m44, m.m34, m.m41);
    lemma_expand6(m.m13, m.m14, m.m31, m.m42, m.m32, m.m41);
    lemma_mul4_perm(m.m13, m.m14, m.m31, m.m42);
    lemma_mul4_perm(m.m13, m.m14, m.m32, m.m41);
    lemma_expand6(m.m14, m.m11, m.m32, m.m43, m.m33, m.m42);
    lemma_expand6(m.m14, m.m12, m.m31, m.m43, m.m33, m.m41);
    lemma_expand6(m.m14, m.m13, m.m31, m.m42, m.m32, m.m41);
}

proof fn lemma_times_adjugate_entry_13(m: Mat4)
    ensures
        m.mul(m.adjugate()).m13 == 0,
{
    lemma_dist3(m.m11, m.m12 * (m.m23 * m.m44 - m.m24 * m.m43), m.m13 * (m.m22 * m.m44 - m.m24 * m.m42), m.m14 * (m.m22 * m.m43 - m.m23 * m.m42));
    lemma_dist3_neg(m.m12, m.m11 * (m.m23 * m.m44 - m.m24 * m.m43), m.m13 * (m.m21 * m.m44 - m.m24 * m.m41), m.m14 * (m.m21 * m.m43 - m.m23 * m.m41));
    lemma_dist3(m.m13, m.m11 * (m.m22 * m.m44 - m.m24 * m.m42), m.m12 * (m.m21 * m.m44 - m.m24 * m.m41), m.m14 * (m.m21 * m.m42 - m.m22 * m.m41));
    lemma_dist3_neg(m.m14, m.m11 * (m.m22 * m.m43 - m.m23 * m.m42), m.m12 * (m.m21 * m.m43 - m.m23 * m.m41), m.m13 * (m.m21 * m.m42 - m.m22 * m.m41));
    lemma_expand6(m.m11, m.m12, m.m23, m.m44, m.m24, m.m43);
    lemma_mul4_perm(m.m11, m.m12, m.m23, m.m44);
    lemma_mul4_perm(m.m11, m.m12, m.m24, m.m43);
    lemma_expand6(m.m11, m.m13, m.m22, m.m44, m.m24, m.m42);
    lemma_mul4_perm(m.m11, m.m13, m.m22, m.m44);
    lemma_mul4_perm(m.m11, m.m13, m.m24, m.m42);
    lemma_expand6(m.m11, m.m14, m.m22, m.m43, m.m23, m.m42);
    lemma_mul4_perm(m.m11, m.m14, m.m22, m.m43);
    lemma_mul4_perm(m.m11, m.m14, m.m23, m.m42);
    lemma_expand6(m.m12, m.m11, m.m23, m.m44, m.m24, m.m43);
    lemma_expand6(m.m12, m.m13, m.m21, m.m44, m.m24, m.m41);
    lemma_mul4_perm(m.m12, m.m13, m.m21, m.m44);
    lemma_mul4_perm(m.m12, m.m13, m.m24, m.m41);
    lemma_expand6(m.m12, m.m14, m.m21, m.m43, m.m23, m.m41);
    lemma_mul4_perm(m.m12, m.m14, m.m21, m.m43);
    lemma_mul4_perm(m.m12, m.m14, m.m23, m.m41);
    lemma_expand6(m.m13, m.m11, m.m22, m.m44, m.m24, m.m42);
    lemma_expand6(m.m13, m.m12, m.m21, m.m44, m.m24, m.m41);
    lemma_expand6(m.m13, m.m14, m.m21, m.m42, m.m22, m.m41);
    lemma_mul4_perm(m.m13, m.m14, m.m21, m.m42);
    lemma_mul4_perm(m.m13, m.m14, m.m22, m.m41);
    lemma_expand6(m.m14, m.m11, m.m22, m.m43, m.m23, m.m42);
    lemma_expand6(m.m14, m.m12, m.m21, m.m43, m.m23, m.m41);
    lemma_expand6(m.m14, m.m13, m.m21, m.m42, m.m22, m.m41);
}

proof fn lemma_times_adjugate_entry_14(m: Mat4)
    ensures
        m.mul(m.adjugate()).m14 == 0,
{
    lemma_dist3_neg(m.m11, m.m12 * (m.m23 * m.m34 - m.m24 * m.m33), m.m13 * (m.m22 * m.m34 - m.m24 * m.m32), m.m14 * (m.m22 * m.m33 - m.m23 * m.m32));
    lemma_dist3(m.m12, m.m11 * (m.m23 * m.m34 - m.m24 * m.m33), m.m13 * (m.m21 * m.m34 - m.m24 * m.m31), m.m14 * (m.m21 * m.m33 - m.m23 * m.m31));
    lemma_dist3_neg(m.m13, m.m11 * (m.m22 * m.m34 - m.m24 * m.m32), m.m12 * (m.m21 * m.m34 - m.m24 * m.m31), m.m14 * (m.m21 * m.m32 - m.m22 * m.m31));
    lemma_dist3(m.m14, m.m11 * (m.m22 * m.m33 - m.m23 * m.m32), m.m12 * (m.m21 * m.m33 - m.m23 * m.m31), m.m13 * (m.m21 * m.m32 - m.m22 * m.m31));
    lemma_expand6(m.m11, m.m12, m.m23, m.m34, m.m24, m.m33);
    lemma_mul4_perm(m.m11, m.m12, m.m23, m.m34);
    lemma_mul4_perm(m.m11, m.m12, m.m24, m.m33);
    lemma_expand6(m.m11, m.m13, m.m22, m.m34, m.m24, m.m32);
    lemma_mul4_perm(m.m11, m.m13, m.m22, m.m34);
    lemma_mul4_perm(m.m11, m.m13, m.m24, m.m32);
    lemma_expand6(m.m11, m.m14, m.m22, m.m33, m.m23, m.m32);
    lemma_mul4_perm(m.m11, m.m14, m.m22, m.m33);
    lemma_mul4_perm(m.m11, m.m14, m.m23, m.m32);
    lemma_expand6(m.m12, m.m11, m.m23, m.m34, m.m24, m.m33);
    lemma_expand6(m.m12, m.m13, m.m21, m.m34, m.m24, m.m31);
    lemma_mul4_perm(m.m12, m.m13, m.m21, m.m34);
    lemma_mul4_perm(m.m12, m.m13, m.m24, m.m31);
    lemma_expand6(m.m12, m.m14, m.m21, m.m33, m.m23, m.m31);
    lemma_mul4_perm(m.m12, m.m14, m.m21, m.m33);
    lemma_mul4_perm(m.m12, m.m14, m.m23, m.m31);
    lemma_expand6(m.m13, m.m11, m.m22, m.m34, m.m24, m.m32);
    lemma_expand6(m.m13, m.m12, m.m21, m.m34, m.m24, m.m31);
    lemma_expand6(m.m13, m.m14, m.m21, m.m32, m.m22, m.m31);
    lemma_mul4_perm(m.m13, m.m14, m.m21, m.m32);
    lemma_mul4_perm(m.m13, m.m14, m.m22, m.m31);
    lemma_expand6(m.m14, m.m11, m.m22, m.m33, m.m23, m.m32);
    lemma_expand6(m.m14, m.m12, m.m21, m.m33, m.m23, m.m31);
    lemma_expand6(m.m14, m.m13, m.m21, m.m32, m.m22, m.m31);
}

proof fn lemma_times_adjugate_entry_21(m: Mat4)
    ensures
        m.mul(m.adjugate()).m21 == 0,
{
    lemma_dist3(m.m21, m.m22 * (m.m33 * m.m44 - m.m34 * m.m43), m.m23 * (m.m32 * m.m44 - m.m34 * m.m42), m.m24 * (m.m32 * m.m43 - m.m33 * m.m42));
    lemma_dist3_neg(m.m22, m.m21 * (m.m33 * m.m44 - m.m34 * m.m43), m.m23 * (m.m31 * m.m44 - m.m34 * m.m41), m.m24 * (m.m31 * m.m43 - m.m33 * m.m41));
    lemma_dist3(m.m23, m.m21 * (m.m32 * m.m44 - m.m34 * m.m42), m.m22 * (m.m31 * m.m44 - m.m34 * m.m41), m.m24 * (m.m31 * m.m42 - m.m32 * m.m41));
    lemma_dist3_neg(m.m24, m.m21 * (m.m32 * m.m43 - m.m33 * m.m42), m.m22 * (m.m31 * m.m43 - m.m33 * m.m41), m.m23 * (m.m31 * m.m42 - m.m32 * m.m41));
    lemma_expand6(m.m21, m.m22, m.m33, m.m44, m.m34, m.m43);
    lemma_mul4_perm(m.m21, m.m22, m.m33, m.m44);
    lemma_mul4_perm(m.m21, m.m22, m.m34, m.m43);
    lemma_expand6(m.m21, m.m23, m.m32, m.m44, m.m34, m.m42);
    lemma_mul4_perm(m.m21, m.m23, m.m32, m.m44);
    lemma_mul4_perm(m.m21, m.m23, m.m34, m.m42);
    lemma_expand6(m.m21, m.m24, m.m32, m.m43, m.m33, m.m42);
    lemma_mul4_perm(m.m21, m.m24, m.m32, m.m43);
    lemma_mul4_perm(m.m21, m.m24, m.m33, m.m42);
    lemma_expand6(m.m22, m.m21, m.m33, m.m44, m.m34, m.m43);
    lemma_expand6(m.m22, m.m23, m.m31, m.m44, m.m34, m.m41);
    lemma_mul4_perm(m.m22, m.m23, m.m31, m.m44);
    lemma_mul4_perm(m.m22, m.m23, m.m34, m.m41);
    lemma_expand6(m.m22, m.m24, m.m31, m.m43, m.m33, m.m41);
    lemma_mul4_perm(m.m22, m.m24, m.m31, m.m43);
    lemma_mul4_perm(m.m22, m.m24, m.m33, m.m41);
    lemma_expand6(m.m23, m.m21, m.m32, m.m44, m.m34, m.m42);
    lemma_expand6(m.m23, m.m22, m.m31, m.m44, m.m34, m.m41);
    lemma_expand6(m.m23, m.m24, m.m31, m.m42, m.m32, m.m41);
    lemma_mul4_perm(m.m23, m.m24, m.m31, m.m42);
    lemma_mul4_perm(m.m23, m.m24, m.m32, m.m41);
    lemma_expand6(m.m24, m.m21, m.m32, m.m43, m.m33, m.m42);
    lemma_expand6(m.m24, m.m22, m.m31, m.m43, m.m33, m.m41);
    lemma_expand6(m.m24, m.m23, m.m31, m.m42, m.m32, m.m41);
}

proof fn lemma_times_adjugate_entry_22(m: Mat4)
    ensures
        m.mul(m.adjugate()).m22 == m.det(),
{
    lemma_dist3_neg(m.m21, m.m12 * (m.m33 * m.m44 - m.m34 * m.m43), m.m13 * (m.m32 * m.m44 - m.m34 * m.m42), m.m14 * (m.m32 * m.m43 - m.m33 * m.m42));
    lemma_dist3(m.m22, m.m11 * (m.m33 * m.m44 - m.m34 * m.m43), m.m13 * (m.m31 * m.m44 - m.m34 * m.m41), m.m14 * (m.m31 * m.m43 - m.m33 * m.m41));
    lemma_dist3_neg(m.m23, m.m11 * (m.m32 * m.m44 - m.m34 * m.m42), m.m12 * (m.m31 * m.m44 - m.m34 * m.m41), m.m14 * (m.m31 * m.m42 - m.m32 * m.m41));
    lemma_dist3(m.m24, m.m11 * (m.m32 * m.m43 - m.m33 * m.m42), m.m12 * (m.m31 * m.m43 - m.m33 * m.m41), m.m13 * (m.m31 * m.m42 - m.m32 * m.m41));
    lemma_expand6(m.m21, m.m12, m.m33, m.m44, m.m34, m.m43);
    lemma_mul4_perm(m.m12, m.m21, m.m33, m.m44);
    lemma_mul4_perm(m.m12, m.m21, m.m34, m.m43);
    lemma_expand6(m.m21, m.m13, m.m32, m.m44, m.m34, m.m42);
    lemma_mul4_perm(m.m13, m.m21, m.m32, m.m44);
    lemma_mul4_perm(m.m13, m.m21, m.m34, m.m42);
    lemma_expand6(m.m21, m.m14, m.m32, m.m43, m.m33, m.m42);
    lemma_mul4_perm(m.m14, m.m21, m.m32, m.m43);
    lemma_mul4_perm(m.m14, m.m21, m.m33, m.m42);
    lemma_expand6(m.m22, m.m11, m.m33, m.m44, m.m34, m.m43);
    lemma_mul4_perm(m.m11, m.m22, m.m33, m.m44);
    lemma_mul4_perm(m.m11, m.m22, m.m34, m.m43);
    lemma_expand6(m.m22, m.m13, m.m31, m.m44, m.m34, m.m41);
    lemma_mul4_perm(m.m13, m.m22, m.m31, m.m44);
    lemma_mul4_perm(m.m13, m.m22, m.m34, m.m41);
    lemma_expand6(m.m22, m.m14, m.m31, m.m43, m.m33, m.m41);
    lemma_mul4_perm(m.m14, m.m22, m.m31, m.m43);
    lemma_mul4_perm(m.m14, m.m22, m.m33, m.m41);
    lemma_expand6(m.m23, m.m11, m.m32, m.m44, m.m34, m.m42);
    lemma_mul4_perm(m.m11, m.m23, m.m32, m.m44);
    lemma_mul4_perm(m.m11, m.m23, m.m34, m.m42);
    lemma_expand6(m.m23, m.m12, m.m31, m.m44, m.m34, m.m41);
    lemma_mul4_perm(m.m12, m.m23, m.m31, m.m44);
    lemma_mul4_perm(m.m12, m.m23, m.m34, m.m41);
    lemma_expand6(m.m23, m.m14, m.m31, m.m42, m.m32, m.m41);
    lemma_mul4_perm(m.m14, m.m23, m.m31, m.m42);
    lemma_mul4_perm(m.m14, m.m23, m.m32, m.m41);
    lemma_expand6(m.m24, m.m11, m.m32, m.m43, m.m33, m.m42);
    lemma_mul4_perm(m.m11, m.m24, m.m32, m.m43);
    lemma_mul4_perm(m.m11, m.m24, m.m33, m.m42);
    lemma_expand6(m.m24, m.m12, m.m31, m.m43, m.m33, m.m41);
    lemma_mul4_perm(m.m12, m.m24, m.m31, m.m43);
    lemma_mul4_perm(m.m12, m.m24, m.m33, m.m41);
    lemma_expand6(m.m24, m.m13, m.m31, m.m42, m.m32, m.m41);
    lemma_mul4_perm(m.m13, m.m24, m.m31, m.m42);
    lemma_mul4_perm(m.m13, m.m24, m.m32, m.m41);
    lemma_dist3(m.m11, m.m22 * (m.m33 * m.m44 - m.m34 * m.m43), m.m23 * (m.m32 * m.m44 - m.m34 * m.m42), m.m24 * (m.m32 * m.m43 - m.m33 * m.m42));
    lemma_expand6(m.m11, m.m22, m.m33, m.m44, m.m34, m.m43);
    lemma_mul4_perm(m.m11, m.m22, m.m33, m.m44);
    lemma_mul4_perm(m.m11, m.m22, m.m34, m.m43);
    lemma_expand6(m.m11, m.m23, m.m32, m.m44, m.m34, m.m42);
    lemma_mul4_perm(m.m11, m.m23, m.m32, m.m44);
    lemma_mul4_perm(m.m11, m.m23, m.m34, m.m42);
    lemma_expand6(m.m11, m.m24, m.m32, m.m43, m.m33, m.m42);
    lemma_mul4_perm(m.m11, m.m24, m.m32, m.m43);
    lemma_mul4_perm(m.m11, m.m24, m.m33, m.m42);
    lemma_dist3(m.m12, m.m21 * (m.m33 * m.m44 - m.m34 * m.m43), m.m23 * (m.m31 * m.m44 - m.m34 * m.m41), m.m24 * (m.m31 * m.m43 - m.m33 * m.m41));
    lemma_expand6(m.m12, m.m21, m.m33, m.m44, m.m34, m.m43);
    lemma_mul4_perm(m.m12, m.m21, m.m33, m.m44);
    lemma_mul4_perm(m.m12, m.m21, m.m34, m.m43);
    lemma_expand6(m.m12, m.m23, m.m31, m.m44, m.m34, m.m41);
    lemma_mul4_perm(m.m12, m.m23, m.m31, m.m44);
    lemma_mul4_perm(m.m12, m.m23, m.m34, m.m41);
    lemma_expand6(m.m12, m.m24, m.m31, m.m43, m.m33, m.m41);
    lemma_mul4_perm(m.m12, m.m24, m.m31, m.m43);
    lemma_mul4_perm(m.m12, m.m24, m.m33, m.m41);
    lemma_dist3(m.m13, m.m21 * (m.m32 * m.m44 - m.m34 * m.m42), m.m22 * (m.m31 * m.m44 - m.m34 * m.m41), m.m24 * (m.m31 * m.m42 - m.m32 * m.m41));
    lemma_expand6(m.m13, m.m21, m.m32, m.m44, m.m34, m.m42);
    lemma_mul4_perm(m.m13, m.m21, m.m32, m.m44);
    lemma_mul4_perm(m.m13, m.m21, m.m34, m.m42);
    lemma_expand6(m.m13, m.m22, m.m31, m.m44, m.m34, m.m41);
    lemma_mul4_perm(m.m13, m.m22, m.m31, m.m44);
    lemma_mul4_perm(m.m13, m.m22, m.m34, m.m41);
    lemma_expand6(m.m13, m.m24, m.m31, m.m42, m.m32, m.m41);
    lemma_mul4_perm(m.m13, m.m24, m.m31, m.m42);
    lemma_mul4_perm(m.m13, m.m24, m.m32, m.m41);
    lemma_dist3(m.m14, m.m21 * (m.m32 * m.m43 - m.m33 * m.m42), m.m22 * (m.m31 * m.m43 - m.m33 * m.m41), m.m23 * (m.m31 * m.m42 - m.m32 * m.m41));
    lemma_expand6(m.m14, m.m21, m.m32, m.m43, m.m33, m.m42);
    lemma_mul4_perm(m.m14, m.m21, m.m32, m.m43);
    lemma_mul4_perm(m.m14, m.m21, m.m33, m.m42);
    lemma_expand6(m.m14, m.m22, m.m31, m.m43, m.m33, m.m41);
    lemma_mul4_perm(m.m14, m.m22, m.m31, m.m43);
    lemma_mul4_perm(m.m14, m.m22, m.m33, m.m41);
    lemma_expand6(m.m14, m.m23, m.m31, m.m42, m.m32, m.m41);
    lemma_mul4_perm(m.m14, m.m23, m.m31, m.m42);
    lemma_mul4_perm(m.m14, m.m23, m.m32, m.m41);
}

proof fn lemma_times_adjugate_entry_23(m: Mat4)
    ensures
        m.mul(m.adjugate()).m23 == 0,
{
    lemma_dist3(m.m21, m.m12 * (m.m23 * m.m44 - m.m24 * m.m43), m.m13 * (m.m22 * m.m44 - m.m24 * m.m42), m.m14 * (m.m22 * m.m43 - m.m23 * m.m42));
    lemma_dist3_neg(m.m22, m.m11 * (m.m23 * m.m44 - m.m24 * m.m43), m.m13 * (m.m21 * m.m44 - m.m24 * m.m41), m.m14 * (m.m21 * m.m43 - m.m23 * m.m41));
    lemma_dist3(m.m23, m.m11 * (m.m22 * m.m44 - m.m24 * m.m42), m.m12 * (m.m21 * m.m44 - m.m24 * m.m41), m.m14 * (m.m21 * m.m42 - m.m22 * m.m41));
    lemma_dist3_neg(m.m24, m.m11 * (m.m22 * m.m43 - m.m23 * m.m42), m.m12 * (m.m21 * m.m43 - m.m23 * m.m41), m.m13 * (m.m21 * m.m42 - m.m22 * m.m41));
    lemma_expand6(m.m21, m.m12, m.m23, m.m44, m.m24, m.m43);
    lemma_mul4_perm(m.m12, m.m21, m.m23, m.m44);
    lemma_mul4_perm(m.m12, m.m21, m.m24, m.m43);
    lemma_expand6(m.m21, m.m13, m.m22, m.m44, m.m24, m.m42);
    lemma_mul4_perm(m.m13, m.m21, m.m22, m.m44);
    lemma_mul4_perm(m.m13, m.m21, m.m24, m.m42);
    lemma_expand6(m.m21, m.m14, m.m22, m.m43, m.m23, m.m42);
    lemma_mul4_perm(m.m14, m.m21, m.m22, m.m43);
    lemma_mul4_perm(m.m14, m.m21, m.m23, m.m42);
    lemma_expand6(m.m22, m.m11, m.m23, m.m44, m.m24, m.m43);
    lemma_mul4_perm(m.m11, m.m22, m.m23, m.m44);
    lemma_mul4_perm(m.m11, m.m22, m.m24, m.m43);
    lemma_expand6(m.m22, m.m13, m.m21, m.m44, m.m24, m.m41);
    lemma_mul4_perm(m.m13, m.m22, m.m24, m.m41);
    lemma_expand6(m.m22, m.m14, m.m21, m.m43, m.m23, m.m41);
    lemma_mul4_perm(m.m14, m.m22, m.m23, m.m41);
    lemma_expand6(m.m23, m.m11, m.m22, m.m44, m.m24, m.m42);
    lemma_mul4_perm(m.m11, m.m23, m.m24, m.m42);
    lemma_expand6(m.m23, m.m12, m.m21, m.m44, m.m24, m.m41);
    lemma_mul4_perm(m.m12, m.m23, m.m24, m.m41);
    lemma_expand6(m.m23, m.m14, m.m21, m.m42, m.m22, m.m41);
    lemma_expand6(m.m24, m.m11, m.m22, m.m43, m.m23, m.m42);
    lemma_expand6(m.m24, m.m12, m.m21, m.m43, m.m23, m.m41);
    lemma_expand6(m.m24, m.m13, m.m21, m.m42, m.m22, m.m41);
}

proof fn lemma_times_adjugate_entry_24(m: Mat4)
    ensures
        m.mul(m.adjugate()).m24 == 0,
{
    lemma_dist3_neg(m.m21, m.m12 * (m.m23 * m.m34 - m.m24 * m.m33), m.m13 * (m.m22 * m.m34 - m.m24 * m.m32), m.m14 * (m.m22 * m.m33 - m.m23 * m.m32));
    lemma_dist3(m.m22, m.m11 * (m.m23 * m.m34 - m.m24 * m.m33), m.m13 * (m.m21 * m.m34 - m.m24 * m.m31), m.m14 * (m.m21 * m.m33 - m.m23 * m.m31));
    lemma_dist3_neg(m.m23, m.m11 * (m.m22 * m.m34 - m.m24 * m.m32), m.m12 * (m.m21 * m.m34 - m.m24 * m.m31), m.m14 * (m.m21 * m.m32 - m.m22 * m.m31));
    lemma_dist3(m.m24, m.m11 * (m.m22 * m.m33 - m.m23 * m.m32), m.m12 * (m.m21 * m.m33 - m.m23 * m.m31), m.m13 * (m.m21 * m.m32 - m.m22 * m.m31));
    lemma_expand6(m.m21, m.m12, m.m23, m.m34, m.m24, m.m33);
    lemma_mul4_perm(m.m12, m.m21, m.m23, m.m34);
    lemma_mul4_perm(m.m12, m.m21, m.m24, m.m33);
    lemma_expand6(m.m21, m.m13, m.m22, m.m34, m.m24, m.m32);
    lemma_mul4_perm(m.m13, m.m21, m.m22, m.m34);
    lemma_mul4_perm(m.m13, m.m21, m.m24, m.m32);
    lemma_expand6(m.m21, m.m14, m.m22, m.m33, m.m23, m.m32);
    lemma_mul4_perm(m.m14, m.m21, m.m22, m.m33);
    lemma_mul4_perm(m.m14, m.m21, m.m23, m.m32);
    lemma_expand6(m.m22, m.m11, m.m23, m.m34, m.m24, m.m33);
    lemma_mul4_perm(m.m11, m.m22, m.m23, m.m34);
    lemma_mul4_perm(m.m11, m.m22, m.m24, m.m33);
    lemma_expand6(m.m22, m.m13, m.m21, m.m34, m.m24, m.m31);
    lemma_mul4_perm(m.m13, m.m22, m.m24, m.m31);
    lemma_expand6(m.m22, m.m14, m.m21, m.m33, m.m23, m.m31);
    lemma_mul4_perm(m.m14, m.m22, m.m23, m.m31);
    lemma_expand6(m.m23, m.m11, m.m22, m.m34, m.m24, m.m32);
    lemma_mul4_perm(m.m11, m.m23, m.m24, m.m32);
    lemma_expand6(m.m23, m.m12, m.m21, m.m34, m.m24, m.m31);
    lemma_mul4_perm(m.m12, m.m23, m.m24, m.m31);
    lemma_expand6(m.m23, m.m14, m.m21, m.m32, m.m22, m.m31);
    lemma_expand6(m.m24, m.m11, m.m22, m.m33, m.m23, m.m32);
    lemma_expand6(m.m24, m.m12, m.m21, m.m33, m.m23, m.m31);
    lemma_expand6(m.m24, m.m13, m.m21, m.m32, m.m22, m.m31);
}

proof fn lemma_times_adjugate_entry_31(m: Mat4)
    ensures
        m.mul(m.adjugate()).m31 == 0,
{
    lemma_dist3(m.m31, m.m22 * (m.m33 * m.m44 - m.m34 * m.m43), m.m23 * (m.m32 * m.m44 - m.m34 * m.m42), m.m24 * (m.m32 * m.m43 - m.m33 * m.m42));
    lemma_dist3_neg(m.m32, m.m21 * (m.m33 * m.m44 - m.m34 * m.m43), m.m23 * (m.m31 * m.m44 - m.m34 * m.m41), m.m24 * (m.m31 * m.m43 - m.m33 * m.m41));
    lemma_dist3(m.m33, m.m21 * (m.m32 * m.m44 - m.m34 * m.m42), m.m22 * (m.m31 * m.m44 - m.m34 * m.m41), m.m24 * (m.m31 * m.m42 - m.m32 * m.m41));
    lemma_dist3_neg(m.m34, m.m21 * (m.m32 * m.m43 - m.m33 * m.m42), m.m22 * (m.m31 * m.m43 - m.m33 * m.m41), m.m23 * (m.m31 * m.m42 - m.m32 * m.m41));
    lemma_expand6(m.m31, m.m22, m.m33, m.m44, m.m34, m.m43);
    lemma_mul4_perm(m.m22, m.m31, m.m33, m.m44);
    lemma_mul4_perm(m.m22, m.m31, m.m34, m.m43);
    lemma_expand6(m.m31, m.m23, m.m32, m.m44, m.m34, m.m42);
    lemma_mul4_perm(m.m23, m.m31, m.m32, m.m44);
    lemma_mul4_perm(m.m23, m.m31, m.m34, m.m42);
    lemma_expand6(m.m31, m.m24, m.m32, m.m43, m.m33, m.m42);
    lemma_mul4_perm(m.m24, m.m31, m.m32, m.m43);
    lemma_mul4_perm(m.m24, m.m31, m.m33, m.m42);
    lemma_expand6(m.m32, m.m21, m.m33, m.m44, m.m34, m.m43);
    lemma_mul4_perm(m.m21, m.m32, m.m33, m.m44);
    lemma_mul4_perm(m.m21, m.m32, m.m34, m.m43);
    lemma_expand6(m.m32, m.m23, m.m31, m.m44, m.m34, m.m41);
    lemma_mul4_perm(m.m23, m.m32, m.m34, m.m41);
    lemma_expand6(m.m32, m.m24, m.m31, m.m43, m.m33, m.m41);
    lemma_mul4_perm(m.m24, m.m32, m.m33, m.m41);
    lemma_expand6(m.m33, m.m21, m.m32, m.m44, m.m34, m.m42);
    lemma_mul4_perm(m.m21, m.m33, m.m34, m.m42);
    lemma_expand6(m.m33, m.m22, m.m31, m.m44, m.m34, m.m41);
    lemma_mul4_perm(m.m22, m.m33, m.m34, m.m41);
    lemma_expand6(m.m33, m.m24, m.m31, m.m42, m.m32, m.m41);
    lemma_expand6(m.m34, m.m21, m.m32, m.m43, m.m33, m.m42);
    lemma_expand6(m.m34, m.m22, m.m31, m.m43, m.m33, m.m41);
    lemma_expand6(m.m34, m.m23, m.m31, m.m42, m.m32, m.m41);
}

proof fn lemma_times_adjugate_entry_32(m: Mat4)
    ensures
        m.mul(m.adjugate()).m32 == 0,
{
    lemma_dist3_neg(m.m31, m.m12 * (m.m33 * m.m44 - m.m34 * m.m43), m.m13 * (m.m32 * m.m44 - m.m34 * m.m42), m.m14 * (m.m32 * m.m43 - m.m33 * m.m42));
    lemma_dist3(m.m32, m.m11 * (m.m33 * m.m44 - m.m34 * m.m43), m.m13 * (m.m31 * m.m44 - m.m34 * m.m41), m.m14 * (m.m31 * m.m43 - m.m33 * m.m41));
    lemma_dist3_neg(m.m33, m.m11 * (m.m32 * m.m44 - m.m34 * m.m42), m.m12 * (m.m31 * m.m44 - m.m34 * m.m41), m.m14 * (m.m31 * m.m42 - m.m32 * m.m41));
    lemma_dist3(m.m34, m.m11 * (m.m32 * m.m43 - m.m33 * m.m42), m.m12 * (m.m31 * m.m43 - m.m33 * m.m41), m.m13 * (m.m31 * m.m42 - m.m32 * m.m41));
    lemma_expand6(m.m31, m.m12, m.m33, m.m44, m.m34, m.m43);
    lemma_mul4_perm(m.m12, m.m31, m.m33, m.m44);
    lemma_mul4_perm(m.m12, m.m31, m.m34, m.m43);
    lemma_expand6(m.m31, m.m13, m.m32, m.m44, m.m34, m.m42);
    lemma_mul4_perm(m.m13, m.m31, m.m32, m.m44);
    lemma_mul4_perm(m.m13, m.m31, m.m34, m.m42);
    lemma_expand6(m.m31, m.m14, m.m32, m.m43, m.m33, m.m42);
    lemma_mul4_perm(m.m14, m.m31, m.m32, m.m43);
    lemma_mul4_perm(m.m14, m.m31, m.m33, m.m42);
    lemma_expand6(m.m32, m.m11, m.m33, m.m44, m.m34, m.m43);
    lemma_mul4_perm(m.m11, m.m32, m.m33, m.m44);
    lemma_mul4_perm(m.m11, m.m32, m.m34, m.m43);
    lemma_expand6(m.m32, m.m13, m.m31, m.m44, m.m34, m.m41);
    lemma_mul4_perm(m.m13, m.m32, m.m34, m.m41);
    lemma_expand6(m.m32, m.m14, m.m31, m.m43, m.m33, m.m41);
    lemma_mul4_perm(m.m14, m.m32, m.m33, m.m41);
    lemma_expand6(m.m33, m.m11, m.m32, m.m44, m.m34, m.m42);
    lemma_mul4_perm(m.m11, m.m33, m.m34, m.m42);
    lemma_expand6(m.m33, m.m12, m.m31, m.m44, m.m34, m.m41);
    lemma_mul4_perm(m.m12, m.m33, m.m34, m.m41);
    lemma_expand6(m.m33, m.m14, m.m31, m.m42, m.m32, m.m41);
    lemma_expand6(m.m34, m.m11, m.m32, m.m43, m.m33, m.m42);
    lemma_expand6(m.m34, m.m12, m.m31, m.m43, m.m33, m.m41);
    lemma_expand6(m.m34, m.m13, m.m31, m.m42, m.m32, m.m41);
}

proof fn lemma_times_adjugate_entry_33(m: Mat4)
    ensures
        m.mul(m.adjugate()).m33 == m.det(),
{
    lemma_dist3(m.m31, m.m12 * (m.m23 * m.m44 - m.m24 * m.m43), m.m13 * (m.m22 * m.m44 - m.m24 * m.m42), m.m14 * (m.m22 * m.m43 - m.m23 * m.m42));
    lemma_dist3_neg(m.m32, m.m11 * (m.m23 * m.m44 - m.m24 * m.m43), m.m13 * (m.m21 * m.m44 - m.m24 * m.m41), m.m14 * (m.m21 * m.m43 - m.m23 * m.m41));
    lemma_dist3(m.m33, m.m11 * (m.m22 * m.m44 - m.m24 * m.m42), m.m12 * (m.m21 * m.m44 - m.m24 * m.m41), m.m14 * (m.m21 * m.m42 - m.m22 * m.m41));
    lemma_dist3_neg(m.m34, m.m11 * (m.m22 * m.m43 - m.m23 * m.m42), m.m12 * (m.m21 * m.m43 - m.m23 * m.m41), m.m13 * (m.m21 * m.m42 - m.m22 * m.m41));
    lemma_expand6(m.m31, m.m12, m.m23, m.m44, m.m24, m.m43);
    lemma_mul4_perm(m.m12, m.m23, m.m31, m.m44);
    lemma_mul4_perm(m.m12, m.m24, m.m31, m.m43);
    lemma_expand6(m.m31, m.m13, m.m22, m.m44, m.m24, m.m42);
    lemma_mul4_perm(m.m13, m.m22, m.m31, m.m44);
    lemma_mul4_perm(m.m13, m.m24, m.m31, m.m42);
    lemma_expand6(m.m31, m.m14, m.m22, m.m43, m.m23, m.m42);
    lemma_mul4_perm(m.m14, m.m22, m.m31, m.m43);
    lemma_mul4_perm(m.m14, m.m23, m.m31, m.m42);
    lemma_expand6(m.m32, m.m11, m.m23, m.m44, m.m24, m.m43);
    lemma_mul4_perm(m.m11, m.m23, m.m32, m.m44);
    lemma_mul4_perm(m.m11, m.m24, m.m32, m.m43);
    lemma_expand6(m.m32, m.m13, m.m21, m.m44, m.m24, m.m41);
    lemma_mul4_perm(m.m13, m.m21, m.m32, m.m44);
    lemma_mul4_perm(m.m13, m.m24, m.m32, m.m41);
    lemma_expand6(m.m32, m.m14, m.m21, m.m43, m.m23, m.m41);
    lemma_mul4_perm(m.m14, m.m21, m.m32, m.m43);
    lemma_mul4_perm(m.m14, m.m23, m.m32, m.m41);
    lemma_expand6(m.m33, m.m11, m.m22, m.m44, m.m24, m.m42);
    lemma_mul4_perm(m.m11, m.m22, m.m33, m.m44);
    lemma_mul4_perm(m.m11, m.m24, m.m33, m.m42);
    lemma_expand6(m.m33, m.m12, m.m21, m.m44, m.m24, m.m41);
    lemma_mul4_perm(m.m12, m.m21, m.m33, m.m44);
    lemma_mul4_perm(m.m12, m.m24, m.m33, m.m41);
    lemma_expand6(m.m33, m.m14, m.m21, m.m42, m.m22, m.m41);
    lemma_mul4_perm(m.m14, m.m21, m.m33, m.m42);
    lemma_mul4_perm(m.m14, m.m22, m.m33, m.m41);
    lemma_expand6(m.m34, m.m11, m.m22, m.m43, m.m23, m.m42);
    lemma_mul4_perm(m.m11, m.m22, m.m34, m.m43);
    lemma_mul4_perm(m.m11, m.m23, m.m34, m.m42);
    lemma_expand6(m.m34, m.m12, m.m21, m.m43, m.m23, m.m41);
    lemma_mul4_perm(m.m12, m.m21, m.m34, m.m43);
    lemma_mul4_perm(m.m12, m.m23, m.m34, m.m41);
    lemma_expand6(m.m34, m.m13, m.m21, m.m42, m.m22, m.m41);
    lemma_mul4_perm(m.m13, m.m21, m.m34, m.m42);
    lemma_mul4_perm(m.m13, m.m22, m.m34, m.m41);
    lemma_dist3(m.m11, m.m22 * (m.m33 * m.m44 - m.m34 * m.m43), m.m23 * (m.m32 * m.m44 - m.m34 * m.m42), m.m24 * (m.m32 * m.m43 - m.m33 * m.m42));
    lemma_expand6(m.m11, m.m22, m.m33, m.m44, m.m34, m.m43);
    lemma_mul4_perm(m.m11, m.m22, m.m33, m.m44);
    lemma_mul4_perm(m.m11, m.m22, m.m34, m.m43);
    lemma_expand6(m.m11, m.m23, m.m32, m.m44, m.m34, m.m42);
    lemma_mul4_perm(m.m11, m.m23, m.m32, m.m44);
    lemma_mul4_perm(m.m11, m.m23, m.m34, m.m42);
    lemma_expand6(m.m11, m.m24, m.m32, m.m43, m.m33, m.m42);
    lemma_mul4_perm(m.m11, m.m24, m.m32, m.m43);
    lemma_mul4_perm(m.m11, m.m24, m.m33, m.m42);
    lemma_dist3(m.m12, m.m21 * (m.m33 * m.m44 - m.m34 * m.m43), m.m23 * (m.m31 * m.m44 - m.m34 * m.m41), m.m24 * (m.m31 * m.m43 - m.m33 * m.m41));
    lemma_expand6(m.m12, m.m21, m.m33, m.m44, m.m34, m.m43);
    lemma_mul4_perm(m.m12, m.m21, m.m33, m.m44);
    lemma_mul4_perm(m.m12, m.m21, m.m34, m.m43);
    lemma_expand6(m.m12, m.m23, m.m31, m.m44, m.m34, m.m41);
    lemma_mul4_perm(m.m12, m.m23, m.m31, m.m44);
    lemma_mul4_perm(m.m12, m.m23, m.m34, m.m41);
    lemma_expand6(m.m12, m.m24, m.m31, m.m43, m.m33, m.m41);
    lemma_mul4_perm(m.m12, m.m24, m.m31, m.m43);
    lemma_mul4_perm(m.m12, m.m24, m.m33, m.m41);
    lemma_dist3(m.m13, m.m21 * (m.m32 * m.m44 - m.m34 * m.m42), m.m22 * (m.m31 * m.m44 - m.m34 * m.m41), m.m24 * (m.m31 * m.m42 - m.m32 * m.m41));
    lemma_expand6(m.m13, m.m21, m.m32, m.m44, m.m34, m.m42);
    lemma_mul4_perm(m.m13, m.m21, m.m32, m.m44);
    lemma_mul4_perm(m.m13, m.m21, m.m34, m.m42);
    lemma_expand6(m.m13, m.m22, m.m31, m.m44, m.m34, m.m41);
    lemma_mul4_perm(m.m13, m.m22, m.m31, m.m44);
    lemma_mul4_perm(m.m13, m.m22, m.m34, m.m41);
    lemma_expand6(m.m13, m.m24, m.m31, m.m42, m.m32, m.m41);
    lemma_mul4_perm(m.m13, m.m24, m.m31, m.m42);
    lemma_mul4_perm(m.m13, m.m24, m.m32, m.m41);
    lemma_dist3(m.m14, m.m21 * (m.m32 * m.m43 - m.m33 * m.m42), m.m22 * (m.m31 * m.m43 - m.m33 * m.m41), m.m23 * (m.m31 * m.m42 - m.m32 * m.m41));
    lemma_expand6(m.m14, m.m21, m.m32, m.m43, m.m33, m.m42);
    lemma_mul4_perm(m.m14, m.m21, m.m32, m.m43);
    lemma_mul4_perm(m.m14, m.m21, m.m33, m.m42);
    lemma_expand6(m.m14, m.m22, m.m31, m.m43, m.m33, m.m41);
    lemma_mul4_perm(m.m14, m.m22, m.m31, m.m43);
    lemma_mul4_perm(m.m14, m.m22, m.m33, m.m41);
    lemma_expand6(m.m14, m.m23, m.m31, m.m42, m.m32, m.m41);
    lemma_mul4_perm(m.m14, m.m23, m.m31, m.m42);
    lemma_mul4_perm(m.m14, m.m23, m.m32, m.m41);
}

proof fn lemma_times_adjugate_entry_34(m: Mat4)
    ensures
        m.mul(m.adjugate()).m34 == 0,
{
    lemma_dist3_neg(m.m31, m.m12 * (m.m23 * m.m34 - m.m24 * m.m33), m.m13 * (m.m22 * m.m34 - m.m24 * m.m32), m.m14 * (m.m22 * m.m33 - m.m23 * m.m32));
    lemma_dist3(m.m32, m.m11 * (m.m23 * m.m34 - m.m24 * m.m33), m.m13 * (m.m21 * m.m34 - m.m24 * m.m31), m.m14 * (m.m21 * m.m33 - m.m23 * m.m31));
    lemma_dist3_neg(m.m33, m.m11 * (m.m22 * m.m34 - m.m24 * m.m32), m.m12 * (m.m21 * m.m34 - m.m24 * m.m31), m.m14 * (m.m21 * m.m32 - m.m22 * m.m31));
    lemma_dist3(m.m34, m.m11 * (m.m22 * m.m33 - m.m23 * m.m32), m.m12 * (m.m21 * m.m33 - m.m23 * m.m31), m.m13 * (m.m21 * m.m32 - m.m22 * m.m31));
    lemma_expand6(m.m31, m.m12, m.m23, m.m34, m.m24, m.m33);
    lemma_mul4_perm(m.m12, m.m23, m.m31, m.m34);
    lemma_mul4_perm(m.m12, m.m24, m.m31, m.m33);
    lemma_expand6(m.m31, m.m13, m.m22, m.m34, m.m24, m.m32);
    lemma_mul4_perm(m.m13, m.m22, m.m31, m.m34);
    lemma_mul4_perm(m.m13, m.m24, m.m31, m.m32);
    lemma_expand6(m.m31, m.m14, m.m22, m.m33, m.m23, m.m32);
    lemma_mul4_perm(m.m14, m.m22, m.m31, m.m33);
    lemma_mul4_perm(m.m14, m.m23, m.m31, m.m32);
    lemma_expand6(m.m32, m.m11, m.m23, m.m34, m.m24, m.m33);
    lemma_mul4_perm(m.m11, m.m23, m.m32, m.m34);
    lemma_mul4_perm(m.m11, m.m24, m.m32, m.m33);
    lemma_expand6(m.m32, m.m13, m.m21, m.m34, m.m24, m.m31);
    lemma_mul4_perm(m.m13, m.m21, m.m32, m.m34);
    lemma_expand6(m.m32, m.m14, m.m21, m.m33, m.m23, m.m31);
    lemma_mul4_perm(m.m14, m.m21, m.m32, m.m33);
    lemma_expand6(m.m33, m.m11, m.m22, m.m34, m.m24, m.m32);
    lemma_mul4_perm(m.m11, m.m22, m.m33, m.m34);
    lemma_expand6(m.m33, m.m12, m.m21, m.m34, m.m24, m.m31);
    lemma_mul4_perm(m.m12, m.m21, m.m33, m.m34);
    lemma_expand6(m.m33, m.m14, m.m21, m.m32, m.m22, m.m31);
    lemma_expand6(m.m34, m.m11, m.m22, m.m33, m.m23, m.m32);
    lemma_expand6(m.m34, m.m12, m.m21, m.m33, m.m23, m.m31);
    lemma_expand6(m.m34, m.m13, m.m21, m.m32, m.m22, m.m31);
}

proof fn lemma_times_adjugate_entry_41(m: Mat4)
    ensures
        m.mul(m.adjugate()).m41 == 0,
{
    lemma_dist3(m.m41, m.m22 * (m.m33 * m.m44 - m.m34 * m.m43), m.m23 * (m.m32 * m.m44 - m.m34 * m.m42), m.m24 * (m.m32 * m.m43 - m.m33 * m.m42));
    lemma_dist3_neg(m.m42, m.m21 * (m.m33 * m.m44 - m.m34 * m.m43), m.m23 * (m.m31 * m.m44 - m.m34 * m.m41), m.m24 * (m.m31 * m.m43 - m.m33 * m.m41));
    lemma_dist3(m.m43, m.m21 * (m.m32 * m.m44 - m.m34 * m.m42), m.m22 * (m.m31 * m.m44 - m.m34 * m.m41), m.m24 * (m.m31 * m.m42 - m.m32 * m.m41));
    lemma_dist3_neg(m.m44, m.m21 * (m.m32 * m.m43 - m.m33 * m.m42), m.m22 * (m.m31 * m.m43 - m.m33 * m.m41), m.m23 * (m.m31 * m.m42 - m.m32 * m.m41));
    lemma_expand6(m.m41, m.m22, m.m33, m.m44, m.m34, m.m43);
    lemma_mul4_perm(m.m22, m.m33, m.m41, m.m44);
    lemma_mul4_perm(m.m22, m.m34, m.m41, m.m43);
    lemma_expand6(m.m41, m.m23, m.m32, m.m44, m.m34, m.m42);
    lemma_mul4_perm(m.m23, m.m32, m.m41, m.m44);
    lemma_mul4_perm(m.m23, m.m34, m.m41, m.m42);
    lemma_expand6(m.m41, m.m24, m.m32, m.m43, m.m33, m.m42);
    lemma_mul4_perm(m.m24, m.m32, m.m41, m.m43);
    lemma_mul4_perm(m.m24, m.m33, m.m41, m.m42);
    lemma_expand6(m.m42, m.m21, m.m33, m.m44, m.m34, m.m43);
    lemma_mul4_perm(m.m21, m.m33, m.m42, m.m44);
    lemma_mul4_perm(m.m21, m.m34, m.m42, m.m43);
    lemma_expand6(m.m42, m.m23, m.m31, m.m44, m.m34, m.m41);
    lemma_mul4_perm(m.m23, m.m31, m.m42, m.m44);
    lemma_expand6(m.m42, m.m24, m.m31, m.m43, m.m33, m.m41);
    lemma_mul4_perm(m.m24, m.m31, m.m42, m.m43);
    lemma_expand6(m.m43, m.m21, m.m32, m.m44, m.m34, m.m42);
    lemma_mul4_perm(m.m21, m.m32, m.m43, m.m44);
    lemma_expand6(m.m43, m.m22, m.m31, m.m44, m.m34, m.m41);
    lemma_mul4_perm(m.m22, m.m31, m.m43, m.m44);
    lemma_expand6(m.m43, m.m24, m.m31, m.m42, m.m32, m.m41);
    lemma_expand6(m.m44, m.m21, m.m32, m.m43, m.m33, m.m42);
    lemma_expand6(m.m44, m.m22, m.m31, m.m43, m.m33, m.m41);
    lemma_expand6(m.m44, m.m23, m.m31, m.m42, m.m32, m.m41);
}

proof fn lemma_times_adjugate_entry_42(m: Mat4)
    ensures
        m.mul(m.adjugate()).m42 == 0,
{
    lemma_dist3_neg(m.m41, m.m12 * (m.m33 * m.m44 - m.m34 * m.m43), m.m13 * (m.m32 * m.m44 - m.m34 * m.m42), m.m14 * (m.m32 * m.m43 - m.m33 * m.m42));
    lemma_dist3(m.m42, m.m11 * (m.m33 * m.m44 - m.m34 * m.m43), m.m13 * (m.m31 * m.m44 - m.m34 * m.m41), m.m14 * (m.m31 * m.m43 - m.m33 * m.m41));
    lemma_dist3_neg(m.m43, m.m11 * (m.m32 * m.m44 - m.m34 * m.m42), m.m12 * (m.m31 * m.m44 - m.m34 * m.m41), m.m14 * (m.m31 * m.m42 - m.m32 * m.m41));
    lemma_dist3(m.m44, m.m11 * (m.m32 * m.m43 - m.m33 * m.m42), m.m12 * (m.m31 * m.m43 - m.m33 * m.m41), m.m13 * (m.m31 * m.m42 - m.m32 * m.m41));
    lemma_expand6(m.m41, m.m12, m.m33, m.m44, m.m34, m.m43);
    lemma_mul4_perm(m.m12, m.m33, m.m41, m.m44);
    lemma_mul4_perm(m.m12, m.m34, m.m41, m.m43);
    lemma_expand6(m.m41, m.m13, m.m32, m.m44, m.m34, m.m42);
    lemma_mul4_perm(m.m13, m.m32, m.m41, m.m44);
    lemma_mul4_perm(m.m13, m.m34, m.m41, m.m42);
    lemma_expand6(m.m41, m.m14, m.m32, m.m43, m.m33, m.m42);
    lemma_mul4_perm(m.m14, m.m32, m.m41, m.m43);
    lemma_mul4_perm(m.m14, m.m33, m.m41, m.m42);
    lemma_expand6(m.m42, m.m11, m.m33, m.m44, m.m34, m.m43);
    lemma_mul4_perm(m.m11, m.m33, m.m42, m.m44);
    lemma_mul4_perm(m.m11, m.m34, m.m42, m.m43);
    lemma_expand6(m.m42, m.m13, m.m31, m.m44, m.m34, m.m41);
    lemma_mul4_perm(m.m13, m.m31, m.m42, m.m44);
    lemma_expand6(m.m42, m.m14, m.m31, m.m43, m.m33, m.m41);
    lemma_mul4_perm(m.m14, m.m31, m.m42, m.m43);
    lemma_expand6(m.m43, m.m11, m.m32, m.m44, m.m34, m.m42);
    lemma_mul4_perm(m.m11, m.m32, m.m43, m.m44);
    lemma_expand6(m.m43, m.m12, m.m31, m.m44, m.m34, m.m41);
    lemma_mul4_perm(m.m12, m.m31, m.m43, m.m44);
    lemma_expand6(m.m43, m.m14, m.m31, m.m42, m.m32, m.m41);
    lemma_expand6(m.m44, m.m11, m.m32, m.m43, m.m33, m.m42);
    lemma_expand6(m.m44, m.m12, m.m31, m.m43, m.m33, m.m41);
    lemma_expand6(m.m44, m.m13, m.m31, m.m42, m.m32, m.m41);
}

proof fn lemma_times_adjugate_entry_43(m: Mat4)
    ensures
        m.mul(m.adjugate()).m43 == 0,
{
    lemma_dist3(m.m41, m.m12 * (m.m23 * m.m44 - m.m24 * m.m43), m.m13 * (m.m22 * m.m44 - m.m24 * m.m42), m.m14 * (m.m22 * m.m43 - m.m23 * m.m42));
    lemma_dist3_neg(m.m42, m.m11 * (m.m23 * m.m44 - m.m24 * m.m43), m.m13 * (m.m21 * m.m44 - m.m24 * m.m41), m.m14 * (m.m21 * m.m43 - m.m23 * m.m41));
    lemma_dist3(m.m43, m.m11 * (m.m22 * m.m44 - m.m24 * m.m42), m.m12 * (m.m21 * m.m44 - m.m24 * m.m41), m.m14 * (m.m21 * m.m42 - m.m22 * m.m41));
    lemma_dist3_neg(m.m44, m.m11 * (m.m22 * m.m43 - m.m23 * m.m42), m.m12 * (m.m21 * m.m43 - m.m23 * m.m41), m.m13 * (m.m21 * m.m42 - m.m22 * m.m41));
    lemma_expand6(m.m41, m.m12, m.m23, m.m44, m.m24, m.m43);
    lemma_mul4_perm(m.m12, m.m23, m.m41, m.m44);
    lemma_mul4_perm(m.m12, m.m24, m.m41, m.m43);
    lemma_expand6(m.m41, m.m13, m.m22, m.m44, m.m24, m.m42);
    lemma_mul4_perm(m.m13, m.m22, m.m41, m.m44);
    lemma_mul4_perm(m.m13, m.m24, m.m41, m.m42);
    lemma_expand6(m.m41, m.m14, m.m22, m.m43, m.m23, m.m42);
    lemma_mul4_perm(m.m14, m.m22, m.m41, m.m43);
    lemma_mul4_perm(m.m14, m.m23, m.m41, m.m42);
    lemma_expand6(m.m42, m.m11, m.m23, m.m44, m.m24, m.m43);
    lemma_mul4_perm(m.m11, m.m23, m.m42, m.m44);
    lemma_mul4_perm(m.m11, m.m24, m.m42, m.m43);
    lemma_expand6(m.m42, m.m13, m.m21, m.m44, m.m24, m.m41);
    lemma_mul4_perm(m.m13, m.m21, m.m42, m.m44);
    lemma_expand6(m.m42, m.m14, m.m21, m.m43, m.m23, m.m41);
    lemma_mul4_perm(m.m14, m.m21, m.m42, m.m43);
    lemma_expand6(m.m43, m.m11, m.m22, m.m44, m.m24, m.m42);
    lemma_mul4_perm(m.m11, m.m22, m.m43, m.m44);
    lemma_expand6(m.m43, m.m12, m.m21, m.m44, m.m24, m.m41);
    lemma_mul4_perm(m.m12, m.m21, m.m43, m.m44);
    lemma_expand6(m.m43, m.m14, m.m21, m.m42, m.m22, m.m41);
    lemma_expand6(m.m44, m.m11, m.m22, m.m43, m.m23, m.m42);
    lemma_expand6(m.m44, m.m12, m.m21, m.m43, m.m23, m.m41);
    lemma_expand6(m.m44, m.m13, m.m21, m.m42, m.m22, m.m41);
}

proof fn lemma_times_adjugate_entry_44(m: Mat4)
    ensures
        m.mul(m.adjugate()).m44 == m.det(),
{
    lemma_dist3_neg(m.m41, m.m12 * (m.m23 * m.m34 - m.m24 * m.m33), m.m13 * (m.m22 * m.m34 - m.m24 * m.m32), m.m14 * (m.m22 * m.m33 - m.m23 * m.m32));
    lemma_dist3(m.m42, m.m11 * (m.m23 * m.m34 - m.m24 * m.m33), m.m13 * (m.m21 * m.m34 - m.m24 * m.m31), m.m14 * (m.m21 * m.m33 - m.m23 * m.m31));
    lemma_dist3_neg(m.m43, m.m11 * (m.m22 * m.m34 - m.m24 * m.m32), m.m12 * (m.m21 * m.m34 - m.m24 * m.m31), m.m14 * (m.m21 * m.m32 - m.m22 * m.m31));
    lemma_dist3(m.m44, m.m11 * (m.m22 * m.m33 - m.m23 * m.m32), m.m12 * (m.m21 * m.m33 - m.m23 * m.m31), m.m13 * (m.m21 * m.m32 - m.m22 * m.m31));
    lemma_expand6(m.m41, m.m12, m.m23, m.m34, m.m24, m.m33);
    lemma_mul4_perm(m.m12, m.m23, m.m34, m.m41);
    lemma_mul4_perm(m.m12, m.m24, m.m33, m.m41);
    lemma_expand6(m.m41, m.m13, m.m22, m.m34, m.m24, m.m32);
    lemma_mul4_perm(m.m13, m.m22, m.m34, m.m41);
    lemma_mul4_perm(m.m13, m.m24, m.m32, m.m41);
    lemma_expand6(m.m41, m.m14, m.m22, m.m33, m.m23, m.m32);
    lemma_mul4_perm(m.m14, m.m22, m.m33, m.m41);
    lemma_mul4_perm(m.m14, m.m23, m.m32, m.m41);
    lemma_expand6(m.m42, m.m11, m.m23, m.m34, m.m24, m.m33);
    lemma_mul4_perm(m.m11, m.m23, m.m34, m.m42);
    lemma_mul4_perm(m.m11, m.m24, m.m33, m.m42);
    lemma_expand6(m.m42, m.m13, m.m21, m.m34, m.m24, m.m31);
    lemma_mul4_perm(m.m13, m.m21, m.m34, m.m42);
    lemma_mul4_perm(m.m13, m.m24, m.m31, m.m42);
    lemma_expand6(m.m42, m.m14, m.m21, m.m33, m.m23, m.m31);
    lemma_mul4_perm(m.m14, m.m21, m.m33, m.m42);
    lemma_mul4_perm(m.m14, m.m23, m.m31, m.m42);
    lemma_expand6(m.m43, m.m11, m.m22, m.m34, m.m24, m.m32);
    lemma_mul4_perm(m.m11, m.m22, m.m34, m.m43);
    lemma_mul4_perm(m.m11, m.m24, m.m32, m.m43);
    lemma_expand6(m.m43, m.m12, m.m21, m.m34, m.m24, m.m31);
    lemma_mul4_perm(m.m12, m.m21, m.m34, m.m43);
    lemma_mul4_perm(m.m12, m.m24, m.m31, m.m43);
    lemma_expand6(m.m43, m.m14, m.m21, m.m32, m.m22, m.m31);
    lemma_mul4_perm(m.m14, m.m21, m.m32, m.m43);
    lemma_mul4_perm(m.m14, m.m22, m.m31, m.m43);
    lemma_expand6(m.m44, m.m11, m.m22, m.m33, m.m23, m.m32);
    lemma_mul4_perm(m.m11, m.m22, m.m33, m.m44);
    lemma_mul4_perm(m.m11, m.m23, m.m32, m.m44);
    lemma_expand6(m.m44, m.m12, m.m21, m.m33, m.m23, m.m31);
    lemma_mul4_perm(m.m12, m.m21, m.m33, m.m44);
    lemma_mul4_perm(m.m12, m.m23, m.m31, m.m44);
    lemma_expand6(m.m44, m.m13, m.m21, m.m32, m.m22, m.m31);
    lemma_mul4_perm(m.m13, m.m21, m.m32, m.m44);
    lemma_mul4_perm(m.m13, m.m22, m.m31, m.m44);
    lemma_dist3(m.m11, m.m22 * (m.m33 * m.m44 - m.m34 * m.m43), m.m23 * (m.m32 * m.m44 - m.m34 * m.m42), m.m24 * (m.m32 * m.m43 - m.m33 * m.m42));
    lemma_expand6(m.m11, m.m22, m.m33, m.m44, m.m34, m.m43);
    lemma_mul4_perm(m.m11, m.m22, m.m33, m.m44);
    lemma_mul4_perm(m.m11, m.m22, m.m34, m.m43);
    lemma_expand6(m.m11, m.m23, m.m32, m.m44, m.m34, m.m42);
    lemma_mul4_perm(m.m11, m.m23, m.m32, m.m44);
    lemma_mul4_perm(m.m11, m.m23, m.m34, m.m42);
    lemma_expand6(m.m11, m.m24, m.m32, m.m43, m.m33, m.m42);
    lemma_mul4_perm(m.m11, m.m24, m.m32, m.m43);
    lemma_mul4_perm(m.m11, m.m24, m.m33, m.m42);
    lemma_dist3(m.m12, m.m21 * (m.m33 * m.m44 - m.m34 * m.m43), m.m23 * (m.m31 * m.m44 - m.m34 * m.m41), m.m24 * (m.m31 * m.m43 - m.m33 * m.m41));
    lemma_expand6(m.m12, m.m21, m.m33, m.m44, m.m34, m.m43);
    lemma_mul4_perm(m.m12, m.m21, m.m33, m.m44);
    lemma_mul4_perm(m.m12, m.m21, m.m34, m.m43);
    lemma_expand6(m.m12, m.m23, m.m31, m.m44, m.m34, m.m41);
    lemma_mul4_perm(m.m12, m.m23, m.m31, m.m44);
    lemma_mul4_perm(m.m12, m.m23, m.m34, m.m41);
    lemma_expand6(m.m12, m.m24, m.m31, m.m43, m.m33, m.m41);
    lemma_mul4_perm(m.m12, m.m24, m.m31, m.m43);
    lemma_mul4_perm(m.m12, m.m24, m.m33, m.m41);
    lemma_dist3(m.m13, m.m21 * (m.m32 * m.m44 - m.m34 * m.m42), m.m22 * (m.m31 * m.m44 - m.m34 * m.m41), m.m24 * (m.m31 * m.m42 - m.m32 * m.m41));
    lemma_expand6(m.m13, m.m21, m.m32, m.m44, m.m34, m.m42);
    lemma_mul4_perm(m.m13, m.m21, m.m32, m.m44);
    lemma_mul4_perm(m.m13, m.m21, m.m34, m.m42);
    lemma_expand6(m.m13, m.m22, m.m31, m.m44, m.m34, m.m41);
    lemma_mul4_perm(m.m13, m.m22, m.m31, m.m44);
    lemma_mul4_perm(m.m13, m.m22, m.m34, m.m41);
    lemma_expand6(m.m13, m.m24, m.m31, m.m42, m.m32, m.m41);
    lemma_mul4_perm(m.m13, m.m24, m.m31, m.m42);
    lemma_mul4_perm(m.m13, m.m24, m.m32, m.m41);
    lemma_dist3(m.m14, m.m21 * (m.m32 * m.m43 - m.m33 * m.m42), m.m22 * (m.m31 * m.m43 - m.m33 * m.m41), m.m23 * (m.m31 * m.m42 - m.m32 * m.m41));
    lemma_expand6(m.m14, m.m21, m.m32, m.m43, m.m33, m.m42);
    lemma_mul4_perm(m.m14, m.m21, m.m32, m.m43);
    lemma_mul4_perm(m.m14, m.m21, m.m33, m.m42);
    lemma_expand6(m.m14, m.m22, m.m31, m.m43, m.m33, m.m41);
    lemma_mul4_perm(m.m14, m.m22, m.m31, m.m43);
    lemma_mul4_perm(m.m14, m.m22, m.m33, m.m41);
    lemma_expand6(m.m14, m.m23, m.m31, m.m42, m.m32, m.m41);
    lemma_mul4_perm(m.m14, m.m23, m.m31, m.m42);
    lemma_mul4_perm(m.m14, m.m23, m.m32, m.m41);
}

proof fn lemma_adjugate_times_entry_11(m: Mat4)
    ensures
        m.adjugate().mul(m).m11 == m.det(),
{
    lemma_comm((m.m22 * (m.m33 * m.m44 - m.m34 * m.m43) - m.m23 * (m.m32 * m.m44 - m.m34 * m.m42)) + m.m24 * (m.m32 * m.m43 - m.m33 * m.m42), m.m11);
    lemma_dist3(m.m11, m.m22 * (m.m33 * m.m44 - m.m34 * m.m43), m.m23 * (m.m32 * m.m44 - m.m34 * m.m42), m.m24 * (m.m32 * m.m43 - m.m33 * m.m42));
    lemma_comm(-((m.m12 * (m.m33 * m.m44 - m.m34 * m.m43) - m.m13 * (m.m32 * m.m44 - m.m34 * m.m42)) + m.m14 * (m.m32 * m.m43 - m.m33 * m.m42)), m.m21);
    lemma_dist3_neg(m.m21, m.m12 * (m.m33 * m.m44 - m.m34 * m.m43), m.m13 * (m.m32 * m.m44 - m.m34 * m.m42), m.m14 * (m.m32 * m.m43 - m.m33 * m.m42));
    lemma_comm((m.m12 * (m.m23 * m.m44 - m.m24 * m.m43) - m.m13 * (m.m22 * m.m44 - m.m24 * m.m42)) + m.m14 * (m.m22 * m.m43 - m.m23 * m.m42), m.m31);
    lemma_dist3(m.m31, m.m12 * (m.m23 * m.m44 - m.m24 * m.m43), m.m13 * (m.m22 * m.m44 - m.m24 * m.m42), m.m14 * (m.m22 * m.m43 - m.m23 * m.m42));
    lemma_comm(-((m.m12 * (m.m23 * m.m34 - m.m24 * m.m33) - m.m13 * (m.m22 * m.m34 - m.m24 * m.m32)) + m.m14 * (m.m22 * m.m33 - m.m23 * m.m32)), m.m41);
    lemma_dist3_neg(m.m41, m.m12 * (m.m23 * m.m34 - m.m24 * m.m33), m.m13 * (m.m22 * m.m34 - m.m24 * m.m32), m.m14 * (m.m22 * m.m33 - m.m23 * m.m32));
    lemma_expand6(m.m11, m.m22, m.m33, m.m44, m.m34, m.m43);
    lemma_mul4_perm(m.m11, m.m22, m.m33, m.m44);
    lemma_mul4_perm(m.m11, m.m22, m.m34, m.m43);
    lemma_expand6(m.m11, m.m23, m.m32, m.m44, m.m34, m.m42);
    lemma_mul4_perm(m.m11, m.m23, m.m32, m.m44);
    lemma_mul4_perm(m.m11, m.m23, m.m34, m.m42);
    lemma_expand6(m.m11, m.m24, m.m32, m.m43, m.m33, m.m42);
    lemma_mul4_perm(m.m11, m.m24, m.m32, m.m43);
    lemma_mul4_perm(m.m11, m.m24, m.m33, m.m42);
    lemma_expand6(m.m21, m.m12, m.m33, m.m44, m.m34, m.m43);
    lemma_mul4_perm(m.m12, m.m21, m.m33, m.m44);
    lemma_mul4_perm(m.m12, m.m21, m.m34, m.m43);
    lemma_expand6(m.m21, m.m13, m.m32, m.m44, m.m34, m.m42);
    lemma_mul4_perm(m.m13, m.m21, m.m32, m.m44);
    lemma_mul4_perm(m.m13, m.m21, m.m34, m.m42);
    lemma_expand6(m.m21, m.m14, m.m32, m.m43, m.m33, m.m42);
    lemma_mul4_perm(m.m14, m.m21, m.m32, m.m43);
    lemma_mul4_perm(m.m14, m.m21, m.m33, m.m42);
    lemma_expand6(m.m31, m.m12, m.m23, m.m44, m.m24, m.m43);
    lemma_mul4_perm(m.m12, m.m23, m.m31, m.m44);
    lemma_mul4_perm(m.m12, m.m24, m.m31, m.m43);
    lemma_expand6(m.m31, m.m13, m.m22, m.m44, m.m24, m.m42);
    lemma_mul4_perm(m.m13, m.m22, m.m31, m.m44);
    lemma_mul4_perm(m.m13, m.m24, m.m31, m.m42);
    lemma_expand6(m.m31, m.m14, m.m22, m.m43, m.m23, m.m42);
    lemma_mul4_perm(m.m14, m.m22, m.m31, m.m43);
    lemma_mul4_perm(m.m14, m.m23, m.m31, m.m42);
    lemma_expand6(m.m41, m.m12, m.m23, m.m34, m.m24, m.m33);
    lemma_mul4_perm(m.m12, m.m23, m.m34, m.m41);
    lemma_mul4_perm(m.m12, m.m24, m.m33, m.m41);
    lemma_expand6(m.m41, m.m13, m.m22, m.m34, m.m24, m.m32);
    lemma_mul4_perm(m.m13, m.m22, m.m34, m.m41);
    lemma_mul4_perm(m.m13, m.m24, m.m32, m.m41);
    lemma_expand6(m.m41, m.m14, m.m22, m.m33, m.m23, m.m32);
    lemma_mul4_perm(m.m14, m.m22, m.m33, m.m41);
    lemma_mul4_perm(m.m14, m.m23, m.m32, m.m41);
    lemma_dist3(m.m11, m.m22 * (m.m33 * m.m44 - m.m34 * m.m43), m.m23 * (m.m32 * m.m44 - m.m34 * m.m42), m.m24 * (m.m32 * m.m43 - m.m33 * m.m42));
    lemma_expand6(m.m11, m.m22, m.m33, m.m44, m.m34, m.m43);
    lemma_mul4_perm(m.m11, m.m22, m.m33, m.m44);
    lemma_mul4_perm(m.m11, m.m22, m.m34, m.m43);
    lemma_expand6(m.m11, m.m23, m.m32, m.m44, m.m34, m.m42);
    lemma_mul4_perm(m.m11, m.m23, m.m32, m.m44);
    lemma_mul4_perm(m.m11, m.m23, m.m34, m.m42);
    lemma_expand6(m.m11, m.m24, m.m32, m.m43, m.m33, m.m42);
    lemma_mul4_perm(m.m11, m.m24, m.m32, m.m43);
    lemma_mul4_perm(m.m11, m.m24, m.m33, m.m42);
    lemma_dist3(m.m12, m.m21 * (m.m33 * m.m44 - m.m34 * m.m43), m.m23 * (m.m31 * m.m44 - m.m34 * m.m41), m.m24 * (m.m31 * m.m43 - m.m33 * m.m41));
    lemma_expand6(m.m12, m.m21, m.m33, m.m44, m.m34, m.m43);
    lemma_mul4_perm(m.m12, m.m21, m.m33, m.m44);
    lemma_mul4_perm(m.m12, m.m21, m.m34, m.m43);
    lemma_expand6(m.m12, m.m23, m.m31, m.m44, m.m34, m.m41);
    lemma_mul4_perm(m.m12, m.m23, m.m31, m.m44);
    lemma_mul4_perm(m.m12, m.m23, m.m34, m.m41);
    lemma_expand6(m.m12, m.m24, m.m31, m.m43, m.m33, m.m41);
    lemma_mul4_perm(m.m12, m.m24, m.m31, m.m43);
    lemma_mul4_perm(m.m12, m.m24, m.m33, m.m41);
    lemma_dist3(m.m13, m.m21 * (m.m32 * m.m44 - m.m34 * m.m42), m.m22 * (m.m31 * m.m44 - m.m34 * m.m41), m.m24 * (m.m31 * m.m42 - m.m32 * m.m41));
    lemma_expand6(m.m13, m.m21, m.m32, m.m44, m.m34, m.m42);
    lemma_mul4_perm(m.m13, m.m21, m.m32, m.m44);
    lemma_mul4_perm(m.m13, m.m21, m.m34, m.m42);
    lemma_expand6(m.m13, m.m22, m.m31, m.m44, m.m34, m.m41);
    lemma_mul4_perm(m.m13, m.m22, m.m31, m.m44);
    lemma_mul4_perm(m.m13, m.m22, m.m34, m.m41);
    lemma_expand6(m.m13, m.m24, m.m31, m.m42, m.m32, m.m41);
    lemma_mul4_perm(m.m13, m.m24, m.m31, m.m42);
    lemma_mul4_perm(m.m13, m.m24, m.m32, m.m41);
    lemma_dist3(m.m14, m.m21 * (m.m32 * m.m43 - m.m33 * m.m42), m.m22 * (m.m31 * m.m43 - m.m33 * m.m41), m.m23 * (m.m31 * m.m42 - m.m32 * m.m41));
    lemma_expand6(m.m14, m.m21, m.m32, m.m43, m.m33, m.m42);
    lemma_mul4_perm(m.m14, m.m21, m.m32, m.m43);
    lemma_mul4_perm(m.m14, m.m21, m.m33, m.m42);
    lemma_expand6(m.m14, m.m22, m.m31, m.m43, m.m33, m.m41);
    lemma_mul4_perm(m.m14, m.m22, m.m31, m.m43);
    lemma_mul4_perm(m.m14, m.m22, m.m33, m.m41);
    lemma_expand6(m.m14, m.m23, m.m31, m.m42, m.m32, m.m41);
    lemma_mul4_perm(m.m14, m.m23, m.m31, m.m42);
    lemma_mul4_perm(m.m14, m.m23, m.m32, m.m41);
}

proof fn lemma_adjugate_times_entry_12(m: Mat4)
    ensures
        m.adjugate().mul(m).m12 == 0,
{
    lemma_comm((m.m22 * (m.m33 * m.m44 - m.m34 * m.m43) - m.m23 * (m.m32 * m.m44 - m.m34 * m.m42)) + m.m24 * (m.m32 * m.m43 - m.m33 * m.m42), m.m12);
    lemma_dist3(m.m12, m.m22 * (m.m33 * m.m44 - m.m34 * m.m43), m.m23 * (m.m32 * m.m44 - m.m34 * m.m42), m.m24 * (m.m32 * m.m43 - m.m33 * m.m42));
    lemma_comm(-((m.m12 * (m.m33 * m.m44 - m.m34 * m.m43) - m.m13 * (m.m32 * m.m44 - m.m34 * m.m42)) + m.m14 * (m.m32 * m.m43 - m.m33 * m.m42)), m.m22);
    lemma_dist3_neg(m.m22, m.m12 * (m.m33 * m.m44 - m.m34 * m.m43), m.m13 * (m.m32 * m.m44 - m.m34 * m.m42), m.m14 * (m.m32 * m.m43 - m.m33 * m.m42));
    lemma_comm((m.m12 * (m.m23 * m.m44 - m.m24 * m.m43) - m.m13 * (m.m22 * m.m44 - m.m24 * m.m42)) + m.m14 * (m.m22 * m.m43 - m.m23 * m.m42), m.m32);
    lemma_dist3(m.m32, m.m12 * (m.m23 * m.m44 - m.m24 * m.m43), m.m13 * (m.m22 * m.m44 - m.m24 * m.m42), m.m14 * (m.m22 * m.m43 - m.m23 * m.m42));
    lemma_comm(-((m.m12 * (m.m23 * m.m34 - m.m24 * m.m33) - m.m13 * (m.m22 * m.m34 - m.m24 * m.m32)) + m.m14 * (m.m22 * m.m33 - m.m23 * m.m32)), m.m42);
    lemma_dist3_neg(m.m42, m.m12 * (m.m23 * m.m34 - m.m24 * m.m33), m.m13 * (m.m22 * m.m34 - m.m24 * m.m32), m.m14 * (m.m22 * m.m33 - m.m23 * m.m32));
    lemma_expand6(m.m12, m.m22, m.m33, m.m44, m.m34, m.m43);
    lemma_mul4_perm(m.m12, m.m22, m.m33, m.m44);
    lemma_mul4_perm(m.m12, m.m22, m.m34, m.m43);
    lemma_expand6(m.m12, m.m23, m.m32, m.m44, m.m34, m.m42);
    lemma_mul4_perm(m.m12, m.m23, m.m32, m.m44);
    lemma_mul4_perm(m.m12, m.m23, m.m34, m.m42);
    lemma_expand6(m.m12, m.m24, m.m32, m.m43, m.m33, m.m42);
    lemma_mul4_perm(m.m12, m.m24, m.m32, m.m43);
    lemma_mul4_perm(m.m12, m.m24, m.m33, m.m42);
    lemma_expand6(m.m22, m.m12, m.m33, m.m44, m.m34, m.m43);
    lemma_expand6(m.m22, m.m13, m.m32, m.m44, m.m34, m.m42);
    lemma_mul4_perm(m.m13, m.m22, m.m32, m.m44);
    lemma_mul4_perm(m.m13, m.m22, m.m34, m.m42);
    lemma_expand6(m.m22, m.m14, m.m32, m.m43, m.m33, m.m42);
    lemma_mul4_perm(m.m14, m.m22, m.m32, m.m43);
    lemma_mul4_perm(m.m14, m.m22, m.m33, m.m42);
    lemma_expand6(m.m32, m.m12, m.m23, m.m44, m.m24, m.m43);
    lemma_expand6(m.m32, m.m13, m.m22, m.m44, m.m24, m.m42);
    lemma_mul4_perm(m.m13, m.m24, m.m32, m.m42);
    lemma_expand6(m.m32, m.m14, m.m22, m.m43, m.m23, m.m42);
    lemma_mul4_perm(m.m14, m.m23, m.m32, m.m42);
    lemma_expand6(m.m42, m.m12, m.m23, m.m34, m.m24, m.m33);
    lemma_expand6(m.m42, m.m13, m.m22, m.m34, m.m24, m.m32);
    lemma_expand6(m.m42, m.m14, m.m22, m.m33, m.m23, m.m32);
}

proof fn lemma_adjugate_times_entry_13(m: Mat4)
    ensures
        m.adjugate().mul(m).m13 == 0,
{
    lemma_comm((m.m22 * (m.m33 * m.m44 - m.m34 * m.m43) - m.m23 * (m.m32 * m.m44 - m.m34 * m.m42)) + m.m24 * (m.m32 * m.m43 - m.m33 * m.m42), m.m13);
    lemma_dist3(m.m13, m.m22 * (m.m33 * m.m44 - m.m34 * m.m43), m.m23 * (m.m32 * m.m44 - m.m34 * m.m42), m.m24 * (m.m32 * m.m43 - m.m33 * m.m42));
    lemma_comm(-((m.m12 * (m.m33 * m.m44 - m.m34 * m.m43) - m.m13 * (m.m32 * m.m44 - m.m34 * m.m42)) + m.m14 * (m.m32 * m.m43 - m.m33 * m.m42)), m.m23);
    lemma_dist3_neg(m.m23, m.m12 * (m.m33 * m.m44 - m.m34 * m.m43), m.m13 * (m.m32 * m.m44 - m.m34 * m.m42), m.m14 * (m.m32 * m.m43 - m.m33 * m.m42));
    lemma_comm((m.m12 * (m.m23 * m.m44 - m.m24 * m.m43) - m.m13 * (m.m22 * m.m44 - m.m24 * m.m42)) + m.m14 * (m.m22 * m.m43 - m.m23 * m.m42), m.m33);
    lemma_dist3(m.m33, m.m12 * (m.m23 * m.m44 - m.m24 * m.m43), m.m13 * (m.m22 * m.m44 - m.m24 * m.m42), m.m14 * (m.m22 * m.m43 - m.m23 * m.m42));
    lemma_comm(-((m.m12 * (m.m23 * m.m34 - m.m24 * m.m33) - m.m13 * (m.m22 * m.m34 - m.m24 * m.m32)) + m.m14 * (m.m22 * m.m33 - m.m23 * m.m32)), m.m43);
    lemma_dist3_neg(m.m43, m.m12 * (m.m23 * m.m34 - m.m24 * m.m33), m.m13 * (m.m22 * m.m34 - m.m24 * m.m32), m.m14 * (m.m22 * m.m33 - m.m23 * m.m32));
    lemma_expand6(m.m13, m.m22, m.m33, m.m44, m.m34, m.m43);
    lemma_mul4_perm(m.m13, m.m22, m.m33, m.m44);
    lemma_mul4_perm(m.m13, m.m22, m.m34, m.m43);
    lemma_expand6(m.m13, m.m23, m.m32, m.m44, m.m34, m.m42);
    lemma_mul4_perm(m.m13, m.m23, m.m32, m.m44);
    lemma_mul4_perm(m.m13, m.m23, m.m34, m.m42);
    lemma_expand6(m.m13, m.m24, m.m32, m.m43, m.m33, m.m42);
    lemma_mul4_perm(m.m13, m.m24, m.m32, m.m43);
    lemma_mul4_perm(m.m13, m.m24, m.m33, m.m42);
    lemma_expand6(m.m23, m.m12, m.m33, m.m44, m.m34, m.m43);
    lemma_mul4_perm(m.m12, m.m23, m.m33, m.m44);
    lemma_mul4_perm(m.m12, m.m23, m.m34, m.m43);
    lemma_expand6(m.m23, m.m13, m.m32, m.m44, m.m34, m.m42);
    lemma_expand6(m.m23, m.m14, m.m32, m.m43, m.m33, m.m42);
    lemma_mul4_perm(m.m14, m.m23, m.m32, m.m43);
    lemma_mul4_perm(m.m14, m.m23, m.m33, m.m42);
    lemma_expand6(m.m33, m.m12, m.m23, m.m44, m.m24, m.m43);
    lemma_mul4_perm(m.m12, m.m24, m.m33, m.m43);
    lemma_expand6(m.m33, m.m13, m.m22, m.m44, m.m24, m.m42);
    lemma_expand6(m.m33, m.m14, m.m22, m.m43, m.m23, m.m42);
    lemma_mul4_perm(m.m14, m.m22, m.m33, m.m43);
    lemma_expand6(m.m43, m.m12, m.m23, m.m34, m.m24, m.m33);
    lemma_expand6(m.m43, m.m13, m.m22, m.m34, m.m24, m.m32);
    lemma_expand6(m.m43, m.m14, m.m22, m.m33, m.m23, m.m32);
}

proof fn lemma_adjugate_times_entry_14(m: Mat4)
    ensures
        m.adjugate().mul(m).m14 == 0,
{
    lemma_comm((m.m22 * (m.m33 * m.m44 - m.m34 * m.m43) - m.m23 * (m.m32 * m.m44 - m.m34 * m.m42)) + m.m24 * (m.m32 * m.m43 - m.m33 * m.m42), m.m14);
    lemma_dist3(m.m14, m.m22 * (m.m33 * m.m44 - m.m34 * m.m43), m.m23 * (m.m32 * m.m44 - m.m34 * m.m42), m.m24 * (m.m32 * m.m43 - m.m33 * m.m42));
    lemma_comm(-((m.m12 * (m.m33 * m.m44 - m.m34 * m.m43) - m.m13 * (m.m32 * m.m44 - m.m34 * m.m42)) + m.m14 * (m.m32 * m.m43 - m.m33 * m.m42)), m.m24);
    lemma_dist3_neg(m.m24, m.m12 * (m.m33 * m.m44 - m.m34 * m.m43), m.m13 * (m.m32 * m.m44 - m.m34 * m.m42), m.m14 * (m.m32 * m.m43 - m.m33 * m.m42));
    lemma_comm((m.m12 * (m.m23 * m.m44 - m.m24 * m.m43) - m.m13 * (m.m22 * m.m44 - m.m24 * m.m42)) + m.m14 * (m.m22 * m.m43 - m.m23 * m.m42), m.m34);
    lemma_dist3(m.m34, m.m12 * (m.m23 * m.m44 - m.m24 * m.m43), m.m13 * (m.m22 * m.m44 - m.m24 * m.m42), m.m14 * (m.m22 * m.m43 - m.m23 * m.m42));
    lemma_comm(-((m.m12 * (m.m23 * m.m34 - m.m24 * m.m33) - m.m13 * (m.m22 * m.m34 - m.m24 * m.m32)) + m.m14 * (m.m22 * m.m33 - m.m23 * m.m32)), m.m44);
    lemma_dist3_neg(m.m44, m.m12 * (m.m23 * m.m34 - m.m24 * m.m33), m.m13 * (m.m22 * m.m34 - m.m24 * m.m32), m.m14 * (m.m22 * m.m33 - m.m23 * m.m32));
    lemma_expand6(m.m14, m.m22, m.m33, m.m44, m.m34, m.m43);
    lemma_mul4_perm(m.m14, m.m22, m.m33, m.m44);
    lemma_mul4_perm(m.m14, m.m22, m.m34, m.m43);
    lemma_expand6(m.m14, m.m23, m.m32, m.m44, m.m34, m.m42);
    lemma_mul4_perm(m.m14, m.m23, m.m32, m.m44);
    lemma_mul4_perm(m.m14, m.m23, m.m34, m.m42);
    lemma_expand6(m.m14, m.m24, m.m32, m.m43, m.m33, m.m42);
    lemma_mul4_perm(m.m14, m.m24, m.m32, m.m43);
    lemma_mul4_perm(m.m14, m.m24, m.m33, m.m42);
    lemma_expand6(m.m24, m.m12, m.m33, m.m44, m.m34, m.m43);
    lemma_mul4_perm(m.m12, m.m24, m.m33, m.m44);
    lemma_mul4_perm(m.m12, m.m24, m.m34, m.m43);
    lemma_expand6(m.m24, m.m13, m.m32, m.m44, m.m34, m.m42);
    lemma_mul4_perm(m.m13, m.m24, m.m32, m.m44);
    lemma_mul4_perm(m.m13, m.m24, m.m34, m.m42);
    lemma_expand6(m.m24, m.m14, m.m32, m.m43, m.m33, m.m42);
    lemma_expand6(m.m34, m.m12, m.m23, m.m44, m.m24, m.m43);
    lemma_mul4_perm(m.m12, m.m23, m.m34, m.m44);
    lemma_expand6(m.m34, m.m13, m.m22, m.m44, m.m24, m.m42);
    lemma_mul4_perm(m.m13, m.m22, m.m34, m.m44);
    lemma_expand6(m.m34, m.m14, m.m22, m.m43, m.m23, m.m42);
    lemma_expand6(m.m44, m.m12, m.m23, m.m34, m.m24, m.m33);
    lemma_expand6(m.m44, m.m13, m.m22, m.m34, m.m24, m.m32);
    lemma_expand6(m.m44, m.m14, m.m22, m.m33, m.m23, m.m32);
}

proof fn lemma_adjugate_times_entry_21(m: Mat4)
    ensures
        m.adjugate().mul(m).m21 == 0,
{
    lemma_comm(-((m.m21 * (m.m33 * m.m44 - m.m34 * m.m43) - m.m23 * (m.m31 * m.m44 - m.m34 * m.m41)) + m.m24 * (m.m31 * m.m43 - m.m33 * m.m41)), m.m11);
    lemma_dist3_neg(m.m11, m.m21 * (m.m33 * m.m44 - m.m34 * m.m43), m.m23 * (m.m31 * m.m44 - m.m34 * m.m41), m.m24 * (m.m31 * m.m43 - m.m33 * m.m41));
    lemma_comm((m.m11 * (m.m33 * m.m44 - m.m34 * m.m43) - m.m13 * (m.m31 * m.m44 - m.m34 * m.m41)) + m.m14 * (m.m31 * m.m43 - m.m33 * m.m41), m.m21);
    lemma_dist3(m.m21, m.m11 * (m.m33 * m.m44 - m.m34 * m.m43), m.m13 * (m.m31 * m.m44 - m.m34 * m.m41), m.m14 * (m.m31 * m.m43 - m.m33 * m.m41));
    lemma_comm(-((m.m11 * (m.m23 * m.m44 - m.m24 * m.m43) - m.m13 * (m.m21 * m.m44 - m.m24 * m.m41)) + m.m14 * (m.m21 * m.m43 - m.m23 * m.m41)), m.m31);
    lemma_dist3_neg(m.m31, m.m11 * (m.m23 * m.m44 - m.m24 * m.m43), m.m13 * (m.m21 * m.m44 - m.m24 * m.m41), m.m14 * (m.m21 * m.m43 - m.m23 * m.m41));
    lemma_comm((m.m11 * (m.m23 * m.m34 - m.m24 * m.m33) - m.m13 * (m.m21 * m.m34 - m.m24 * m.m31)) + m.m14 * (m.m21 * m.m33 - m.m23 * m.m31), m.m41);
    lemma_dist3(m.m41, m.m11 * (m.m23 * m.m34 - m.m24 * m.m33), m.m13 * (m.m21 * m.m34 - m.m24 * m.m31), m.m14 * (m.m21 * m.m33 - m.m23 * m.m31));
    lemma_expand6(m.m11, m.m21, m.m33, m.m44, m.m34, m.m43);
    lemma_mul4_perm(m.m11, m.m21, m.m33, m.m44);
    lemma_mul4_perm(m.m11, m.m21, m.m34, m.m43);
    lemma_expand6(m.m11, m.m23, m.m31, m.m44, m.m34, m.m41);
    lemma_mul4_perm(m.m11, m.m23, m.m31, m.m44);
    lemma_mul4_perm(m.m11, m.m23, m.m34, m.m41);
    lemma_expand6(m.m11, m.m24, m.m31, m.m43, m.m33, m.m41);
    lemma_mul4_perm(m.m11, m.m24, m.m31, m.m43);
    lemma_mul4_perm(m.m11, m.m24, m.m33, m.m41);
    lemma_expand6(m.m21, m.m11, m.m33, m.m44, m.m34, m.m43);
    lemma_expand6(m.m21, m.m13, m.m31, m.m44, m.m34, m.m41);
    lemma_mul4_perm(m.m13, m.m21, m.m31, m.m44);
    lemma_mul4_perm(m.m13, m.m21, m.m34, m.m41);
    lemma_expand6(m.m21, m.m14, m.m31, m.m43, m.m33, m.m41);
    lemma_mul4_perm(m.m14, m.m21, m.m31, m.m43);
    lemma_mul4_perm(m.m14, m.m21, m.m33, m.m41);
    lemma_expand6(m.m31, m.m11, m.m23, m.m44, m.m24, m.m43);
    lemma_expand6(m.m31, m.m13, m.m21, m.m44, m.m24, m.m41);
    lemma_mul4_perm(m.m13, m.m24, m.m31, m.m41);
    lemma_expand6(m.m31, m.m14, m.m21, m.m43, m.m23, m.m41);
    lemma_mul4_perm(m.m14, m.m23, m.m31, m.m41);
    lemma_expand6(m.m41, m.m11, m.m23, m.m34, m.m24, m.m33);
    lemma_expand6(m.m41, m.m13, m.m21, m.m34, m.m24, m.m31);
    lemma_expand6(m.m41, m.m14, m.m21, m.m33, m.m23, m.m31);
}

proof fn lemma_adjugate_times_entry_22(m: Mat4)
    ensures
        m.adjugate().mul(m).m22 == m.det(),
{
    lemma_comm(-((m.m21 * (m.m33 * m.m44 - m.m34 * m.m43) - m.m23 * (m.m31 * m.m44 - m.m34 * m.m41)) + m.m24 * (m.m31 * m.m43 - m.m33 * m.m41)), m.m12);
    lemma_dist3_neg(m.m12, m.m21 * (m.m33 * m.m44 - m.m34 * m.m43), m.m23 * (m.m31 * m.m44 - m.m34 * m.m41), m.m24 * (m.m31 * m.m43 - m.m33 * m.m41));
    lemma_comm((m.m11 * (m.m33 * m.m44 - m.m34 * m.m43) - m.m13 * (m.m31 * m.m44 - m.m34 * m.m41)) + m.m14 * (m.m31 * m.m43 - m.m33 * m.m41), m.m22);
    lemma_dist3(m.m22, m.m11 * (m.m33 * m.m44 - m.m34 * m.m43), m.m13 * (m.m31 * m.m44 - m.m34 * m.m41), m.m14 * (m.m31 * m.m43 - m.m33 * m.m41));
    lemma_comm(-((m.m11 * (m.m23 * m.m44 - m.m24 * m.m43) - m.m13 * (m.m21 * m.m44 - m.m24 * m.m41)) + m.m14 * (m.m21 * m.m43 - m.m23 * m.m41)), m.m32);
    lemma_dist3_neg(m.m32, m.m11 * (m.m23 * m.m44 - m.m24 * m.m43), m.m13 * (m.m21 * m.m44 - m.m24 * m.m41), m.m14 * (m.m21 * m.m43 - m.m23 * m.m41));
    lemma_comm((m.m11 * (m.m23 * m.m34 - m.m24 * m.m33) - m.m13 * (m.m21 * m.m34 - m.m24 * m.m31)) + m.m14 * (m.m21 * m.m33 - m.m23 * m.m31), m.m42);
    lemma_dist3(m.m42, m.m11 * (m.m23 * m.m34 - m.m24 * m.m33), m.m13 * (m.m21 * m.m34 - m.m24 * m.m31), m.m14 * (m.m21 * m.m33 - m.m23 * m.m31));
    lemma_expand6(m.m12, m.m21, m.m33, m.m44, m.m34, m.m43);
    lemma_mul4_perm(m.m12, m.m21, m.m33, m.m44);
    lemma_mul4_perm(m.m12, m.m21, m.m34, m.m43);
    lemma_expand6(m.m12, m.m23, m.m31, m.m44, m.m34, m.m41);
    lemma_mul4_perm(m.m12, m.m23, m.m31, m.m44);
    lemma_mul4_perm(m.m12, m.m23, m.m34, m.m41);
    lemma_expand6(m.m12, m.m24, m.m31, m.m43, m.m33, m.m41);
    lemma_mul4_perm(m.m12, m.m24, m.m31, m.m43);
    lemma_mul4_perm(m.m12, m.m24, m.m33, m.m41);
    lemma_expand6(m.m22, m.m11, m.m33, m.m44, m.m34, m.m43);
    lemma_mul4_perm(m.m11, m.m22, m.m33, m.m44);
    lemma_mul4_perm(m.m11, m.m22, m.m34, m.m43);
    lemma_expand6(m.m22, m.m13, m.m31, m.m44, m.m34, m.m41);
    lemma_mul4_perm(m.m13, m.m22, m.m31, m.m44);
    lemma_mul4_perm(m.m13, m.m22, m.m34, m.m41);
    lemma_expand6(m.m22, m.m14, m.m31, m.m43, m.m33, m.m41);
    lemma_mul4_perm(m.m14, m.m22, m.m31, m.m43);
    lemma_mul4_perm(m.m14, m.m22, m.m33, m.m41);
    lemma_expand6(m.m32, m.m11, m.m23, m.m44, m.m24, m.m43);
    lemma_mul4_perm(m.m11, m.m23, m.m32, m.m44);
    lemma_mul4_perm(m.m11, m.m24, m.m32, m.m43);
    lemma_expand6(m.m32, m.m13, m.m21, m.m44, m.m24, m.m41);
    lemma_mul4_perm(m.m13, m.m21, m.m32, m.m44);
    lemma_mul4_perm(m.m13, m.m24, m.m32, m.m41);
    lemma_expand6(m.m32, m.m14, m.m21, m.m43, m.m23, m.m41);
    lemma_mul4_perm(m.m14, m.m21, m.m32, m.m43);
    lemma_mul4_perm(m.m14, m.m23, m.m32, m.m41);
    lemma_expand6(m.m42, m.m11, m.m23, m.m34, m.m24, m.m33);
    lemma_mul4_perm(m.m11, m.m23, m.m34, m.m42);
    lemma_mul4_perm(m.m11, m.m24, m.m33, m.m42);
    lemma_expand6(m.m42, m.m13, m.m21, m.m34, m.m24, m.m31);
    lemma_mul4_perm(m.m13, m.m21, m.m34, m.m42);
    lemma_mul4_perm(m.m13, m.m24, m.m31, m.m42);
    lemma_expand6(m.m42, m.m14, m.m21, m.m33, m.m23, m.m31);
    lemma_mul4_perm(m.m14, m.m21, m.m33, m.m42);
    lemma_mul4_perm(m.m14, m.m23, m.m31, m.m42);
    lemma_dist3(m.m11, m.m22 * (m.m33 * m.m44 - m.m34 * m.m43), m.m23 * (m.m32 * m.m44 - m.m34 * m.m42), m.m24 * (m.m32 * m.m43 - m.m33 * m.m42));
    lemma_expand6(m.m11, m.m22, m.m33, m.m44, m.m34, m.m43);
    lemma_mul4_perm(m.m11, m.m22, m.m33, m.m44);
    lemma_mul4_perm(m.m11, m.m22, m.m34, m.m43);
    lemma_expand6(m.m11, m.m23, m.m32, m.m44, m.m34, m.m42);
    lemma_mul4_perm(m.m11, m.m23, m.m32, m.m44);
    lemma_mul4_perm(m.m11, m.m23, m.m34, m.m42);
    lemma_expand6(m.m11, m.m24, m.m32, m.m43, m.m33, m.m42);
    lemma_mul4_perm(m.m11, m.m24, m.m32, m.m43);
    lemma_mul4_perm(m.m11, m.m24, m.m33, m.m42);
    lemma_dist3(m.m12, m.m21 * (m.m33 * m.m44 - m.m34 * m.m43), m.m23 * (m.m31 * m.m44 - m.m34 * m.m41), m.m24 * (m.m31 * m.m43 - m.m33 * m.m41));
    lemma_expand6(m.m12, m.m21, m.m33, m.m44, m.m34, m.m43);
    lemma_mul4_perm(m.m12, m.m21, m.m33, m.m44);
    lemma_mul4_perm(m.m12, m.m21, m.m34, m.m43);
    lemma_expand6(m.m12, m.m23, m.m31, m.m44, m.m34, m.m41);
    lemma_mul4_perm(m.m12, m.m23, m.m31, m.m44);
    lemma_mul4_perm(m.m12, m.m23, m.m34, m.m41);
    lemma_expand6(m.m12, m.m24, m.m31, m.m43, m.m33, m.m41);
    lemma_mul4_perm(m.m12, m.m24, m.m31, m.m43);
    lemma_mul4_perm(m.m12, m.m24, m.m33, m.m41);
    lemma_dist3(m.m13, m.m21 * (m.m32 * m.m44 - m.m34 * m.m42), m.m22 * (m.m31 * m.m44 - m.m34 * m.m41), m.m24 * (m.m31 * m.m42 - m.m32 * m.m41));
    lemma_expand6(m.m13, m.m21, m.m32, m.m44, m.m34, m.m42);
    lemma_mul4_perm(m.m13, m.m21, m.m32, m.m44);
    lemma_mul4_perm(m.m13, m.m21, m.m34, m.m42);
    lemma_expand6(m.m13, m.m22, m.m31, m.m44, m.m34, m.m41);
    lemma_mul4_perm(m.m13, m.m22, m.m31, m.m44);
    lemma_mul4_perm(m.m13, m.m22, m.m34, m.m41);
    lemma_expand6(m.m13, m.m24, m.m31, m.m42, m.m32, m.m41);
    lemma_mul4_perm(m.m13, m.m24, m.m31, m.m42);
    lemma_mul4_perm(m.m13, m.m24, m.m32, m.m41);
    lemma_dist3(m.m14, m.m21 * (m.m32 * m.m43 - m.m33 * m.m42), m.m22 * (m.m31 * m.m43 - m.m33 * m.m41), m.m23 * (m.m31 * m.m42 - m.m32 * m.m41));
    lemma_expand6(m.m14, m.m21, m.m32, m.m43, m.m33, m.m42);
    lemma_mul4_perm(m.m14, m.m21, m.m32, m.m43);
    lemma_mul4_perm(m.m14, m.m21, m.m33, m.m42);
    lemma_expand6(m.m14, m.m22, m.m31, m.m43, m.m33, m.m41);
    lemma_mul4_perm(m.m14, m.m22, m.m31, m.m43);
    lemma_mul4_perm(m.m14, m.m22, m.m33, m.m41);
    lemma_expand6(m.m14, m.m23, m.m31, m.m42, m.m32, m.m41);
    lemma_mul4_perm(m.m14, m.m23, m.m31, m.m42);
    lemma_mul4_perm(m.m14, m.m23, m.m32, m.m41);
}

proof fn lemma_adjugate_times_entry_23(m: Mat4)
    ensures
        m.adjugate().mul(m).m23 == 0,
{
    lemma_comm(-((m.m21 * (m.m33 * m.m44 - m.m34 * m.m43) - m.m23 * (m.m31 * m.m44 - m.m34 * m.m41)) + m.m24 * (m.m31 * m.m43 - m.m33 * m.m41)), m.m13);
    lemma_dist3_neg(m.m13, m.m21 * (m.m33 * m.m44 - m.m34 * m.m43), m.m23 * (m.m31 * m.m44 - m.m34 * m.m41), m.m24 * (m.m31 * m.m43 - m.m33 * m.m41));
    lemma_comm((m.m11 * (m.m33 * m.m44 - m.m34 * m.m43) - m.m13 * (m.m31 * m.m44 - m.m34 * m.m41)) + m.m14 * (m.m31 * m.m43 - m.m33 * m.m41), m.m23);
    lemma_dist3(m.m23, m.m11 * (m.m33 * m.m44 - m.m34 * m.m43), m.m13 * (m.m31 * m.m44 - m.m34 * m.m41), m.m14 * (m.m31 * m.m43 - m.m33 * m.m41));
    lemma_comm(-((m.m11 * (m.m23 * m.m44 - m.m24 * m.m43) - m.m13 * (m.m21 * m.m44 - m.m24 * m.m41)) + m.m14 * (m.m21 * m.m43 - m.m23 * m.m41)), m.m33);
    lemma_dist3_neg(m.m33, m.m11 * (m.m23 * m.m44 - m.m24 * m.m43), m.m13 * (m.m21 * m.m44 - m.m24 * m.m41), m.m14 * (m.m21 * m.m43 - m.m23 * m.m41));
    lemma_comm((m.m11 * (m.m23 * m.m34 - m.m24 * m.m33) - m.m13 * (m.m21 * m.m34 - m.m24 * m.m31)) + m.m14 * (m.m21 * m.m33 - m.m23 * m.m31), m.m43);
    lemma_dist3(m.m43, m.m11 * (m.m23 * m.m34 - m.m24 * m.m33), m.m13 * (m.m21 * m.m34 - m.m24 * m.m31), m.m14 * (m.m21 * m.m33 - m.m23 * m.m31));
    lemma_expand6(m.m13, m.m21, m.m33, m.m44, m.m34, m.m43);
    lemma_mul4_perm(m.m13, m.m21, m.m33, m.m44);
    lemma_mul4_perm(m.m13, m.m21, m.m34, m.m43);
    lemma_expand6(m.m13, m.m23, m.m31, m.m44, m.m34, m.m41);
    lemma_mul4_perm(m.m13, m.m23, m.m31, m.m44);
    lemma_mul4_perm(m.m13, m.m23, m.m34, m.m41);
    lemma_expand6(m.m13, m.m24, m.m31, m.m43, m.m33, m.m41);
    lemma_mul4_perm(m.m13, m.m24, m.m31, m.m43);
    lemma_mul4_perm(m.m13, m.m24, m.m33, m.m41);
    lemma_expand6(m.m23, m.m11, m.m33, m.m44, m.m34, m.m43);
    lemma_mul4_perm(m.m11, m.m23, m.m33, m.m44);
    lemma_mul4_perm(m.m11, m.m23, m.m34, m.m43);
    lemma_expand6(m.m23, m.m13, m.m31, m.m44, m.m34, m.m41);
    lemma_expand6(m.m23, m.m14, m.m31, m.m43, m.m33, m.m41);
    lemma_mul4_perm(m.m14, m.m23, m.m31, m.m43);
    lemma_mul4_perm(m.m14, m.m23, m.m33, m.m41);
    lemma_expand6(m.m33, m.m11, m.m23, m.m44, m.m24, m.m43);
    lemma_mul4_perm(m.m11, m.m24, m.m33, m.m43);
    lemma_expand6(m.m33, m.m13, m.m21, m.m44, m.m24, m.m41);
    lemma_expand6(m.m33, m.m14, m.m21, m.m43, m.m23, m.m41);
    lemma_mul4_perm(m.m14, m.m21, m.m33, m.m43);
    lemma_expand6(m.m43, m.m11, m.m23, m.m34, m.m24, m.m33);
    lemma_expand6(m.m43, m.m13, m.m21, m.m34, m.m24, m.m31);
    lemma_expand6(m.m43, m.m14, m.m21, m.m33, m.m23, m.m31);
}

proof fn lemma_adjugate_times_entry_24(m: Mat4)
    ensures
        m.adjugate().mul(m).m24 == 0,
{
    lemma_comm(-((m.m21 * (m.m33 * m.m44 - m.m34 * m.m43) - m.m23 * (m.m31 * m.m44 - m.m34 * m.m41)) + m.m24 * (m.m31 * m.m43 - m.m33 * m.m41)), m.m14);
    lemma_dist3_neg(m.m14, m.m21 * (m.m33 * m.m44 - m.m34 * m.m43), m.m23 * (m.m31 * m.m44 - m.m34 * m.m41), m.m24 * (m.m31 * m.m43 - m.m33 * m.m41));
    lemma_comm((m.m11 * (m.m33 * m.m44 - m.m34 * m.m43) - m.m13 * (m.m31 * m.m44 - m.m34 * m.m41)) + m.m14 * (m.m31 * m.m43 - m.m33 * m.m41), m.m24);
    lemma_dist3(m.m24, m.m11 * (m.m33 * m.m44 - m.m34 * m.m43), m.m13 * (m.m31 * m.m44 - m.m34 * m.m41), m.m14 * (m.m31 * m.m43 - m.m33 * m.m41));
    lemma_comm(-((m.m11 * (m.m23 * m.m44 - m.m24 * m.m43) - m.m13 * (m.m21 * m.m44 - m.m24 * m.m41)) + m.m14 * (m.m21 * m.m43 - m.m23 * m.m41)), m.m34);
    lemma_dist3_neg(m.m34, m.m11 * (m.m23 * m.m44 - m.m24 * m.m43), m.m13 * (m.m21 * m.m44 - m.m24 * m.m41), m.m14 * (m.m21 * m.m43 - m.m23 * m.m41));
    lemma_comm((m.m11 * (m.m23 * m.m34 - m.m24 * m.m33) - m.m13 * (m.m21 * m.m34 - m.m24 * m.m31)) + m.m14 * (m.m21 * m.m33 - m.m23 * m.m31), m.m44);
    lemma_dist3(m.m44, m.m11 * (m.m23 * m.m34 - m.m24 * m.m33), m.m13 * (m.m21 * m.m34 - m.m24 * m.m31), m.m14 * (m.m21 * m.m33 - m.m23 * m.m31));
    lemma_expand6(m.m14, m.m21, m.m33, m.m44, m.m34, m.m43);
    lemma_mul4_perm(m.m14, m.m21, m.m33, m.m44);
    lemma_mul4_perm(m.m14, m.m21, m.m34, m.m43);
    lemma_expand6(m.m14, m.m23, m.m31, m.m44, m.m34, m.m41);
    lemma_mul4_perm(m.m14, m.m23, m.m31, m.m44);
    lemma_mul4_perm(m.m14, m.m23, m.m34, m.m41);
    lemma_expand6(m.m14, m.m24, m.m31, m.m43, m.m33, m.m41);
    lemma_mul4_perm(m.m14, m.m24, m.m31, m.m43);
    lemma_mul4_perm(m.m14, m.m24, m.m33, m.m41);
    lemma_expand6(m.m24, m.m11, m.m33, m.m44, m.m34, m.m43);
    lemma_mul4_perm(m.m11, m.m24, m.m33, m.m44);
    lemma_mul4_perm(m.m11, m.m24, m.m34, m.m43);
    lemma_expand6(m.m24, m.m13, m.m31, m.m44, m.m34, m.m41);
    lemma_mul4_perm(m.m13, m.m24, m.m31, m.m44);
    lemma_mul4_perm(m.m13, m.m24, m.m34, m.m41);
    lemma_expand6(m.m24, m.m14, m.m31, m.m43, m.m33, m.m41);
    lemma_expand6(m.m34, m.m11, m.m23, m.m44, m.m24, m.m43);
    lemma_mul4_perm(m.m11, m.m23, m.m34, m.m44);
    lemma_expand6(m.m34, m.m13, m.m21, m.m44, m.m24, m.m41);
    lemma_mul4_perm(m.m13, m.m21, m.m34, m.m44);
    lemma_expand6(m.m34, m.m14, m.m21, m.m43, m.m23, m.m41);
    lemma_expand6(m.m44, m.m11, m.m23, m.m34, m.m24, m.m33);
    lemma_expand6(m.m44, m.m13, m.m21, m.m34, m.m24, m.m31);
    lemma_expand6(m.m44, m.m14, m.m21, m.m33, m.m23, m.m31);
}

proof fn lemma_adjugate_times_entry_31(m: Mat4)
    ensures
        m.adjugate().mul(m).m31 == 0,
{
    lemma_comm((m.m21 * (m.m32 * m.m44 - m.m34 * m.m42) - m.m22 * (m.m31 * m.m44 - m.m34 * m.m41)) + m.m24 * (m.m31 * m.m42 - m.m32 * m.m41), m.m11);
    lemma_dist3(m.m11, m.m21 * (m.m32 * m.m44 - m.m34 * m.m42), m.m22 * (m.m31 * m.m44 - m.m34 * m.m41), m.m24 * (m.m31 * m.m42 - m.m32 * m.m41));
    lemma_comm(-((m.m11 * (m.m32 * m.m44 - m.m34 * m.m42) - m.m12 * (m.m31 * m.m44 - m.m34 * m.m41)) + m.m14 * (m.m31 * m.m42 - m.m32 * m.m41)), m.m21);
    lemma_dist3_neg(m.m21, m.m11 * (m.m32 * m.m44 - m.m34 * m.m42), m.m12 * (m.m31 * m.m44 - m.m34 * m.m41), m.m14 * (m.m31 * m.m42 - m.m32 * m.m41));
    lemma_comm((m.m11 * (m.m22 * m.m44 - m.m24 * m.m42) - m.m12 * (m.m21 * m.m44 - m.m24 * m.m41)) + m.m14 * (m.m21 * m.m42 - m.m22 * m.m41), m.m31);
    lemma_dist3(m.m31, m.m11 * (m.m22 * m.m44 - m.m24 * m.m42), m.m12 * (m.m21 * m.m44 - m.m24 * m.m41), m.m14 * (m.m21 * m.m42 - m.m22 * m.m41));
    lemma_comm(-((m.m11 * (m.m22 * m.m34 - m.m24 * m.m32) - m.m12 * (m.m21 * m.m34 - m.m24 * m.m31)) + m.m14 * (m.m21 * m.m32 - m.m22 * m.m31)), m.m41);
    lemma_dist3_neg(m.m41, m.m11 * (m.m22 * m.m34 - m.m24 * m.m32), m.m12 * (m.m21 * m.m34 - m.m24 * m.m31), m.m14 * (m.m21 * m.m32 - m.m22 * m.m31));
    lemma_expand6(m.m11, m.m21, m.m32, m.m44, m.m34, m.m42);
    lemma_mul4_perm(m.m11, m.m21, m.m32, m.m44);
    lemma_mul4_perm(m.m11, m.m21, m.m34, m.m42);
    lemma_expand6(m.m11, m.m22, m.m31, m.m44, m.m34, m.m41);
    lemma_mul4_perm(m.m11, m.m22, m.m31, m.m44);
    lemma_mul4_perm(m.m11, m.m22, m.m34, m.m41);
    lemma_expand6(m.m11, m.m24, m.m31, m.m42, m.m32, m.m41);
    lemma_mul4_perm(m.m11, m.m24, m.m31, m.m42);
    lemma_mul4_perm(m.m11, m.m24, m.m32, m.m41);
    lemma_expand6(m.m21, m.m11, m.m32, m.m44, m.m34, m.m42);
    lemma_expand6(m.m21, m.m12, m.m31, m.m44, m.m34, m.m41);
    lemma_mul4_perm(m.m12, m.m21, m.m31, m.m44);
    lemma_mul4_perm(m.m12, m.m21, m.m34, m.m41);
    lemma_expand6(m.m21, m.m14, m.m31, m.m42, m.m32, m.m41);
    lemma_mul4_perm(m.m14, m.m21, m.m31, m.m42);
    lemma_mul4_perm(m.m14, m.m21, m.m32, m.m41);
    lemma_expand6(m.m31, m.m11, m.m22, m.m44, m.m24, m.m42);
    lemma_expand6(m.m31, m.m12, m.m21, m.m44, m.m24, m.m41);
    lemma_mul4_perm(m.m12, m.m24, m.m31, m.m41);
    lemma_expand6(m.m31, m.m14, m.m21, m.m42, m.m22, m.m41);
    lemma_mul4_perm(m.m14, m.m22, m.m31, m.m41);
    lemma_expand6(m.m41, m.m11, m.m22, m.m34, m.m24, m.m32);
    lemma_expand6(m.m41, m.m12, m.m21, m.m34, m.m24, m.m31);
    lemma_expand6(m.m41, m.m14, m.m21, m.m32, m.m22, m.m31);
}

proof fn lemma_adjugate_times_entry_32(m: Mat4)
    ensures
        m.adjugate().mul(m).m32 == 0,
{
    lemma_comm((m.m21 * (m.m32 * m.m44 - m.m34 * m.m42) - m.m22 * (m.m31 * m.m44 - m.m34 * m.m41)) + m.m24 * (m.m31 * m.m42 - m.m32 * m.m41), m.m12);
    lemma_dist3(m.m12, m.m21 * (m.m32 * m.m44 - m.m34 * m.m42), m.m22 * (m.m31 * m.m44 - m.m34 * m.m41), m.m24 * (m.m31 * m.m42 - m.m32 * m.m41));
    lemma_comm(-((m.m11 * (m.m32 * m.m44 - m.m34 * m.m42) - m.m12 * (m.m31 * m.m44 - m.m34 * m.m41)) + m.m14 * (m.m31 * m.m42 - m.m32 * m.m41)), m.m22);
    lemma_dist3_neg(m.m22, m.m11 * (m.m32 * m.m44 - m.m34 * m.m42), m.m12 * (m.m31 * m.m44 - m.m34 * m.m41), m.m14 * (m.m31 * m.m42 - m.m32 * m.m41));
    lemma_comm((m.m11 * (m.m22 * m.m44 - m.m24 * m.m42) - m.m12 * (m.m21 * m.m44 - m.m24 * m.m41)) + m.m14 * (m.m21 * m.m42 - m.m22 * m.m41), m.m32);
    lemma_dist3(m.m32, m.m11 * (m.m22 * m.m44 - m.m24 * m.m42), m.m12 * (m.m21 * m.m44 - m.m24 * m.m41), m.m14 * (m.m21 * m.m42 - m.m22 * m.m41));
    lemma_comm(-((m.m11 * (m.m22 * m.m34 - m.m24 * m.m32) - m.m12 * (m.m21 * m.m34 - m.m24 * m.m31)) + m.m14 * (m.m21 * m.m32 - m.m22 * m.m31)), m.m42);
    lemma_dist3_neg(m.m42, m.m11 * (m.m22 * m.m34 - m.m24 * m.m32), m.m12 * (m.m21 * m.m34 - m.m24 * m.m31), m.m14 * (m.m21 * m.m32 - m.m22 * m.m31));
    lemma_expand6(m.m12, m.m21, m.m32, m.m44, m.m34, m.m42);
    lemma_mul4_perm(m.m12, m.m21, m.m32, m.m44);
    lemma_mul4_perm(m.m12, m.m21, m.m34, m.m42);
    lemma_expand6(m.m12, m.m22, m.m31, m.m44, m.m34, m.m41);
    lemma_mul4_perm(m.m12, m.m22, m.m31, m.m44);
    lemma_mul4_perm(m.m12, m.m22, m.m34, m.m41);
    lemma_expand6(m.m12, m.m24, m.m31, m.m42, m.m32, m.m41);
    lemma_mul4_perm(m.m12, m.m24, m.m31, m.m42);
    lemma_mul4_perm(m.m12, m.m24, m.m32, m.m41);
    lemma_expand6(m.m22, m.m11, m.m32, m.m44, m.m34, m.m42);
    lemma_mul4_perm(m.m11, m.m22, m.m32, m.m44);
    lemma_mul4_perm(m.m11, m.m22, m.m34, m.m42);
    lemma_expand6(m.m22, m.m12, m.m31, m.m44, m.m34, m.m41);
    lemma_expand6(m.m22, m.m14, m.m31, m.m42, m.m32, m.m41);
    lemma_mul4_perm(m.m14, m.m22, m.m31, m.m42);
    lemma_mul4_perm(m.m14, m.m22, m.m32, m.m41);
    lemma_expand6(m.m32, m.m11, m.m22, m.m44, m.m24, m.m42);
    lemma_mul4_perm(m.m11, m.m24, m.m32, m.m42);
    lemma_expand6(m.m32, m.m12, m.m21, m.m44, m.m24, m.m41);
    lemma_expand6(m.m32, m.m14, m.m21, m.m42, m.m22, m.m41);
    lemma_mul4_perm(m.m14, m.m21, m.m32, m.m42);
    lemma_expand6(m.m42, m.m11, m.m22, m.m34, m.m24, m.m32);
    lemma_expand6(m.m42, m.m12, m.m21, m.m34, m.m24, m.m31);
    lemma_expand6(m.m42, m.m14, m.m21, m.m32, m.m22, m.m31);
}

proof fn lemma_adjugate_times_entry_33(m: Mat4)
    ensures
        m.adjugate().mul(m).m33 == m.det(),
{
    lemma_comm((m.m21 * (m.m32 * m.m44 - m.m34 * m.m42) - m.m22 * (m.m31 * m.m44 - m.m34 * m.m41)) + m.m24 * (m.m31 * m.m42 - m.m32 * m.m41), m.m13);
    lemma_dist3(m.m13, m.m21 * (m.m32 * m.m44 - m.m34 * m.m42), m.m22 * (m.m31 * m.m44 - m.m34 * m.m41), m.m24 * (m.m31 * m.m42 - m.m32 * m.m41));
    lemma_comm(-((m.m11 * (m.m32 * m.m44 - m.m34 * m.m42) - m.m12 * (m.m31 * m.m44 - m.m34 * m.m41)) + m.m14 * (m.m31 * m.m42 - m.m32 * m.m41)), m.m23);
    lemma_dist3_neg(m.m23, m.m11 * (m.m32 * m.m44 - m.m34 * m.m42), m.m12 * (m.m31 * m.m44 - m.m34 * m.m41), m.m14 * (m.m31 * m.m42 - m.m32 * m.m41));
    lemma_comm((m.m11 * (m.m22 * m.m44 - m.m24 * m.m42) - m.m12 * (m.m21 * m.m44 - m.m24 * m.m41)) + m.m14 * (m.m21 * m.m42 - m.m22 * m.m41), m.m33);
    lemma_dist3(m.m33, m.m11 * (m.m22 * m.m44 - m.m24 * m.m42), m.m12 * (m.m21 * m.m44 - m.m24 * m.m41), m.m14 * (m.m21 * m.m42 - m.m22 * m.m41));
    lemma_comm(-((m.m11 * (m.m22 * m.m34 - m.m24 * m.m32) - m.m12 * (m.m21 * m.m34 - m.m24 * m.m31)) + m.m14 * (m.m21 * m.m32 - m.m22 * m.m31)), m.m43);
    lemma_dist3_neg(m.m43, m.m11 * (m.m22 * m.m34 - m.m24 * m.m32), m.m12 * (m.m21 * m.m34 - m.m24 * m.m31), m.m14 * (m.m21 * m.m32 - m.m22 * m.m31));
    lemma_expand6(m.m13, m.m21, m.m32, m.m44, m.m34, m.m42);
    lemma_mul4_perm(m.m13, m.m21, m.m32, m.m44);
    lemma_mul4_perm(m.m13, m.m21, m.m34, m.m42);
    lemma_expand6(m.m13, m.m22, m.m31, m.m44, m.m34, m.m41);
    lemma_mul4_perm(m.m13, m.m22, m.m31, m.m44);
    lemma_mul4_perm(m.m13, m.m22, m.m34, m.m41);
    lemma_expand6(m.m13, m.m24, m.m31, m.m42, m.m32, m.m41);
    lemma_mul4_perm(m.m13, m.m24, m.m31, m.m42);
    lemma_mul4_perm(m.m13, m.m24, m.m32, m.m41);
    lemma_expand6(m.m23, m.m11, m.m32, m.m44, m.m34, m.m42);
    lemma_mul4_perm(m.m11, m.m23, m.m32, m.m44);
    lemma_mul4_perm(m.m11, m.m23, m.m34, m.m42);
    lemma_expand6(m.m23, m.m12, m.m31, m.m44, m.m34, m.m41);
    lemma_mul4_perm(m.m12, m.m23, m.m31, m.m44);
    lemma_mul4_perm(m.m12, m.m23, m.m34, m.m41);
    lemma_expand6(m.m23, m.m14, m.m31, m.m42, m.m32, m.m41);
    lemma_mul4_perm(m.m14, m.m23, m.m31, m.m42);
    lemma_mul4_perm(m.m14, m.m23, m.m32, m.m41);
    lemma_expand6(m.m33, m.m11, m.m22, m.m44, m.m24, m.m42);
    lemma_mul4_perm(m.m11, m.m22, m.m33, m.m44);
    lemma_mul4_perm(m.m11, m.m24, m.m33, m.m42);
    lemma_expand6(m.m33, m.m12, m.m21, m.m44, m.m24, m.m41);
    lemma_mul4_perm(m.m12, m.m21, m.m33, m.m44);
    lemma_mul4_perm(m.m12, m.m24, m.m33, m.m41);
    lemma_expand6(m.m33, m.m14, m.m21, m.m42, m.m22, m.m41);
    lemma_mul4_perm(m.m14, m.m21, m.m33, m.m42);
    lemma_mul4_perm(m.m14, m.m22, m.m33, m.m41);
    lemma_expand6(m.m43, m.m11, m.m22, m.m34, m.m24, m.m32);
    lemma_mul4_perm(m.m11, m.m22, m.m34, m.m43);
    lemma_mul4_perm(m.m11, m.m24, m.m32, m.m43);
    lemma_expand6(m.m43, m.m12, m.m21, m.m34, m.m24, m.m31);
    lemma_mul4_perm(m.m12, m.m21, m.m34, m.m43);
    lemma_mul4_perm(m.m12, m.m24, m.m31, m.m43);
    lemma_expand6(m.m43, m.m14, m.m21, m.m32, m.m22, m.m31);
    lemma_mul4_perm(m.m14, m.m21, m.m32, m.m43);
    lemma_mul4_perm(m.m14, m.m22, m.m31, m.m43);
    lemma_dist3(m.m11, m.m22 * (m.m33 * m.m44 - m.m34 * m.m43), m.m23 * (m.m32 * m.m44 - m.m34 * m.m42), m.m24 * (m.m32 * m.m43 - m.m33 * m.m42));
    lemma_expand6(m.m11, m.m22, m.m33, m.m44, m.m34, m.m43);
    lemma_mul4_perm(m.m11, m.m22, m.m33, m.m44);
    lemma_mul4_perm(m.m11, m.m22, m.m34, m.m43);
    lemma_expand6(m.m11, m.m23, m.m32, m.m44, m.m34, m.m42);
    lemma_mul4_perm(m.m11, m.m23, m.m32, m.m44);
    lemma_mul4_perm(m.m11, m.m23, m.m34, m.m42);
    lemma_expand6(m.m11, m.m24, m.m32, m.m43, m.m33, m.m42);
    lemma_mul4_perm(m.m11, m.m24, m.m32, m.m43);
    lemma_mul4_perm(m.m11, m.m24, m.m33, m.m42);
    lemma_dist3(m.m12, m.m21 * (m.m33 * m.m44 - m.m34 * m.m43), m.m23 * (m.m31 * m.m44 - m.m34 * m.m41), m.m24 * (m.m31 * m.m43 - m.m33 * m.m41));
    lemma_expand6(m.m12, m.m21, m.m33, m.m44, m.m34, m.m43);
    lemma_mul4_perm(m.m12, m.m21, m.m33, m.m44);
    lemma_mul4_perm(m.m12, m.m21, m.m34, m.m43);
    lemma_expand6(m.m12, m.m23, m.m31, m.m44, m.m34, m.m41);
    lemma_mul4_perm(m.m12, m.m23, m.m31, m.m44);
    lemma_mul4_perm(m.m12, m.m23, m.m34, m.m41);
    lemma_expand6(m.m12, m.m24, m.m31, m.m43, m.m33, m.m41);
    lemma_mul4_perm(m.m12, m.m24, m.m31, m.m43);
    lemma_mul4_perm(m.m12, m.m24, m.m33, m.m41);
    lemma_dist3(m.m13, m.m21 * (m.m32 * m.m44 - m.m34 * m.m42), m.m22 * (m.m31 * m.m44 - m.m34 * m.m41), m.m24 * (m.m31 * m.m42 - m.m32 * m.m41));
    lemma_expand6(m.m13, m.m21, m.m32, m.m44, m.m34, m.m42);
    lemma_mul4_perm(m.m13, m.m21, m.m32, m.m44);
    lemma_mul4_perm(m.m13, m.m21, m.m34, m.m42);
    lemma_expand6(m.m13, m.m22, m.m31, m.m44, m.m34, m.m41);
    lemma_mul4_perm(m.m13, m.m22, m.m31, m.m44);
    lemma_mul4_perm(m.m13, m.m22, m.m34, m.m41);
    lemma_expand6(m.m13, m.m24, m.m31, m.m42, m.m32, m.m41);
    lemma_mul4_perm(m.m13, m.m24, m.m31, m.m42);
    lemma_mul4_perm(m.m13, m.m24, m.m32, m.m41);
    lemma_dist3(m.m14, m.m21 * (m.m32 * m.m43 - m.m33 * m.m42), m.m22 * (m.m31 * m.m43 - m.m33 * m.m41), m.m23 * (m.m31 * m.m42 - m.m32 * m.m41));
    lemma_expand6(m.m14, m.m21, m.m32, m.m43, m.m33, m.m42);
    lemma_mul4_perm(m.m14, m.m21, m.m32, m.m43);
    lemma_mul4_perm(m.m14, m.m21, m.m33, m.m42);
    lemma_expand6(m.m14, m.m22, m.m31, m.m43, m.m33, m.m41);
    lemma_mul4_perm(m.m14, m.m22, m.m31, m.m43);
    lemma_mul4_perm(m.m14, m.m22, m.m33, m.m41);
    lemma_expand6(m.m14, m.m23, m.m31, m.m42, m.m32, m.m41);
    lemma_mul4_perm(m.m14, m.m23, m.m31, m.m42);
    lemma_mul4_perm(m.m14, m.m23, m.m32, m.m41);
}

proof fn lemma_adjugate_times_entry_34(m: Mat4)
    ensures
        m.adjugate().mul(m).m34 == 0,
{
    lemma_comm((m.m21 * (m.m32 * m.m44 - m.m34 * m.m42) - m.m22 * (m.m31 * m.m44 - m.m34 * m.m41)) + m.m24 * (m.m31 * m.m42 - m.m32 * m.m41), m.m14);
    lemma_dist3(m.m14, m.m21 * (m.m32 * m.m44 - m.m34 * m.m42), m.m22 * (m.m31 * m.m44 - m.m34 * m.m41), m.m24 * (m.m31 * m.m42 - m.m32 * m.m41));
    lemma_comm(-((m.m11 * (m.m32 * m.m44 - m.m34 * m.m42) - m.m12 * (m.m31 * m.m44 - m.m34 * m.m41)) + m.m14 * (m.m31 * m.m42 - m.m32 * m.m41)), m.m24);
    lemma_dist3_neg(m.m24, m.m11 * (m.m32 * m.m44 - m.m34 * m.m42), m.m12 * (m.m31 * m.m44 - m.m34 * m.m41), m.m14 * (m.m31 * m.m42 - m.m32 * m.m41));
    lemma_comm((m.m11 * (m.m22 * m.m44 - m.m24 * m.m42) - m.m12 * (m.m21 * m.m44 - m.m24 * m.m41)) + m.m14 * (m.m21 * m.m42 - m.m22 * m.m41), m.m34);
    lemma_dist3(m.m34, m.m11 * (m.m22 * m.m44 - m.m24 * m.m42), m.m12 * (m.m21 * m.m44 - m.m24 * m.m41), m.m14 * (m.m21 * m.m42 - m.m22 * m.m41));
    lemma_comm(-((m.m11 * (m.m22 * m.m34 - m.m24 * m.m32) - m.m12 * (m.m21 * m.m34 - m.m24 * m.m31)) + m.m14 * (m.m21 * m.m32 - m.m22 * m.m31)), m.m44);
    lemma_dist3_neg(m.m44, m.m11 * (m.m22 * m.m34 - m.m24 * m.m32), m.m12 * (m.m21 * m.m34 - m.m24 * m.m31), m.m14 * (m.m21 * m.m32 - m.m22 * m.m31));
    lemma_expand6(m.m14, m.m21, m.m32, m.m44, m.m34, m.m42);
    lemma_mul4_perm(m.m14, m.m21, m.m32, m.m44);
    lemma_mul4_perm(m.m14, m.m21, m.m34, m.m42);
    lemma_expand6(m.m14, m.m22, m.m31, m.m44, m.m34, m.m41);
    lemma_mul4_perm(m.m14, m.m22, m.m31, m.m44);
    lemma_mul4_perm(m.m14, m.m22, m.m34, m.m41);
    lemma_expand6(m.m14, m.m24, m.m31, m.m42, m.m32, m.m41);
    lemma_mul4_perm(m.m14, m.m24, m.m31, m.m42);
    lemma_mul4_perm(m.m14, m.m24, m.m32, m.m41);
    lemma_expand6(m.m24, m.m11, m.m32, m.m44, m.m34, m.m42);
    lemma_mul4_perm(m.m11, m.m24, m.m32, m.m44);
    lemma_mul4_perm(m.m11, m.m24, m.m34, m.m42);
    lemma_expand6(m.m24, m.m12, m.m31, m.m44, m.m34, m.m41);
    lemma_mul4_perm(m.m12, m.m24, m.m31, m.m44);
    lemma_mul4_perm(m.m12, m.m24, m.m34, m.m41);
    lemma_expand6(m.m24, m.m14, m.m31, m.m42, m.m32, m.m41);
    lemma_expand6(m.m34, m.m11, m.m22, m.m44, m.m24, m.m42);
    lemma_mul4_perm(m.m11, m.m22, m.m34, m.m44);
    lemma_expand6(m.m34, m.m12, m.m21, m.m44, m.m24, m.m41);
    lemma_mul4_perm(m.m12, m.m21, m.m34, m.m44);
    lemma_expand6(m.m34, m.m14, m.m21, m.m42, m.m22, m.m41);
    lemma_expand6(m.m44, m.m11, m.m22, m.m34, m.m24, m.m32);
    lemma_expand6(m.m44, m.m12, m.m21, m.m34, m.m24, m.m31);
    lemma_expand6(m.m44, m.m14, m.m21, m.m32, m.m22, m.m31);
}

proof fn lemma_adjugate_times_entry_41(m: Mat4)
    ensures
        m.adjugate().mul(m).m41 == 0,
{
    lemma_comm(-((m.m21 * (m.m32 * m.m43 - m.m33 * m.m42) - m.m22 * (m.m31 * m.m43 - m.m33 * m.m41)) + m.m23 * (m.m31 * m.m42 - m.m32 * m.m41)), m.m11);
    lemma_dist3_neg(m.m11, m.m21 * (m.m32 * m.m43 - m.m33 * m.m42), m.m22 * (m.m31 * m.m43 - m.m33 * m.m41), m.m23 * (m.m31 * m.m42 - m.m32 * m.m41));
    lemma_comm((m.m11 * (m.m32 * m.m43 - m.m33 * m.m42) - m.m12 * (m.m31 * m.m43 - m.m33 * m.m41)) + m.m13 * (m.m31 * m.m42 - m.m32 * m.m41), m.m21);
    lemma_dist3(m.m21, m.m11 * (m.m32 * m.m43 - m.m33 * m.m42), m.m12 * (m.m31 * m.m43 - m.m33 * m.m41), m.m13 * (m.m31 * m.m42 - m.m32 * m.m41));
    lemma_comm(-((m.m11 * (m.m22 * m.m43 - m.m23 * m.m42) - m.m12 * (m.m21 * m.m43 - m.m23 * m.m41)) + m.m13 * (m.m21 * m.m42 - m.m22 * m.m41)), m.m31);
    lemma_dist3_neg(m.m31, m.m11 * (m.m22 * m.m43 - m.m23 * m.m42), m.m12 * (m.m21 * m.m43 - m.m23 * m.m41), m.m13 * (m.m21 * m.m42 - m.m22 * m.m41));
    lemma_comm((m.m11 * (m.m22 * m.m33 - m.m23 * m.m32) - m.m12 * (m.m21 * m.m33 - m.m23 * m.m31)) + m.m13 * (m.m21 * m.m32 - m.m22 * m.m31), m.m41);
    lemma_dist3(m.m41, m.m11 * (m.m22 * m.m33 - m.m23 * m.m32), m.m12 * (m.m21 * m.m33 - m.m23 * m.m31), m.m13 * (m.m21 * m.m32 - m.m22 * m.m31));
    lemma_expand6(m.m11, m.m21, m.m32, m.m43, m.m33, m.m42);
    lemma_mul4_perm(m.m11, m.m21, m.m32, m.m43);
    lemma_mul4_perm(m.m11, m.m21, m.m33, m.m42);
    lemma_expand6(m.m11, m.m22, m.m31, m.m43, m.m33, m.m41);
    lemma_mul4_perm(m.m11, m.m22, m.m31, m.m43);
    lemma_mul4_perm(m.m11, m.m22, m.m33, m.m41);
    lemma_expand6(m.m11, m.m23, m.m31, m.m42, m.m32, m.m41);
    lemma_mul4_perm(m.m11, m.m23, m.m31, m.m42);
    lemma_mul4_perm(m.m11, m.m23, m.m32, m.m41);
    lemma_expand6(m.m21, m.m11, m.m32, m.m43, m.m33, m.m42);
    lemma_expand6(m.m21, m.m12, m.m31, m.m43, m.m33, m.m41);
    lemma_mul4_perm(m.m12, m.m21, m.m31, m.m43);
    lemma_mul4_perm(m.m12, m.m21, m.m33, m.m41);
    lemma_expand6(m.m21, m.m13, m.m31, m.m42, m.m32, m.m41);
    lemma_mul4_perm(m.m13, m.m21, m.m31, m.m42);
    lemma_mul4_perm(m.m13, m.m21, m.m32, m.m41);
    lemma_expand6(m.m31, m.m11, m.m22, m.m43, m.m23, m.m42);
    lemma_expand6(m.m31, m.m12, m.m21, m.m43, m.m23, m.m41);
    lemma_mul4_perm(m.m12, m.m23, m.m31, m.m41);
    lemma_expand6(m.m31, m.m13, m.m21, m.m42, m.m22, m.m41);
    lemma_mul4_perm(m.m13, m.m22, m.m31, m.m41);
    lemma_expand6(m.m41, m.m11, m.m22, m.m33, m.m23, m.m32);
    lemma_expand6(m.m41, m.m12, m.m21, m.m33, m.m23, m.m31);
    lemma_expand6(m.m41, m.m13, m.m21, m.m32, m.m22, m.m31);
}

proof fn lemma_adjugate_times_entry_42(m: Mat4)
    ensures
        m.adjugate().mul(m).m42 == 0,
{
    lemma_comm(-((m.m21 * (m.m32 * m.m43 - m.m33 * m.m42) - m.m22 * (m.m31 * m.m43 - m.m33 * m.m41)) + m.m23 * (m.m31 * m.m42 - m.m32 * m.m41)), m.m12);
    lemma_dist3_neg(m.m12, m.m21 * (m.m32 * m.m43 - m.m33 * m.m42), m.m22 * (m.m31 * m.m43 - m.m33 * m.m41), m.m23 * (m.m31 * m.m42 - m.m32 * m.m41));
    lemma_comm((m.m11 * (m.m32 * m.m43 - m.m33 * m.m42) - m.m12 * (m.m31 * m.m43 - m.m33 * m.m41)) + m.m13 * (m.m31 * m.m42 - m.m32 * m.m41), m.m22);
    lemma_dist3(m.m22, m.m11 * (m.m32 * m.m43 - m.m33 * m.m42), m.m12 * (m.m31 * m.m43 - m.m33 * m.m41), m.m13 * (m.m31 * m.m42 - m.m32 * m.m41));
    lemma_comm(-((m.m11 * (m.m22 * m.m43 - m.m23 * m.m42) - m.m12 * (m.m21 * m.m43 - m.m23 * m.m41)) + m.m13 * (m.m21 * m.m42 - m.m22 * m.m41)), m.m32);
    lemma_dist3_neg(m.m32, m.m11 * (m.m22 * m.m43 - m.m23 * m.m42), m.m12 * (m.m21 * m.m43 - m.m23 * m.m41), m.m13 * (m.m21 * m.m42 - m.m22 * m.m41));
    lemma_comm((m.m11 * (m.m22 * m.m33 - m.m23 * m.m32) - m.m12 * (m.m21 * m.m33 - m.m23 * m.m31)) + m.m13 * (m.m21 * m.m32 - m.m22 * m.m31), m.m42);
    lemma_dist3(m.m42, m.m11 * (m.m22 * m.m33 - m.m23 * m.m32), m.m12 * (m.m21 * m.m33 - m.m23 * m.m31), m.m13 * (m.m21 * m.m32 - m.m22 * m.m31));
    lemma_expand6(m.m12, m.m21, m.m32, m.m43, m.m33, m.m42);
    lemma_mul4_perm(m.m12, m.m21, m.m32, m.m43);
    lemma_mul4_perm(m.m12, m.m21, m.m33, m.m42);
    lemma_expand6(m.m12, m.m22, m.m31, m.m43, m.m33, m.m41);
    lemma_mul4_perm(m.m12, m.m22, m.m31, m.m43);
    lemma_mul4_perm(m.m12, m.m22, m.m33, m.m41);
    lemma_expand6(m.m12, m.m23, m.m31, m.m42, m.m32, m.m41);
    lemma_mul4_perm(m.m12, m.m23, m.m31, m.m42);
    lemma_mul4_perm(m.m12, m.m23, m.m32, m.m41);
    lemma_expand6(m.m22, m.m11, m.m32, m.m43, m.m33, m.m42);
    lemma_mul4_perm(m.m11, m.m22, m.m32, m.m43);
    lemma_mul4_perm(m.m11, m.m22, m.m33, m.m42);
    lemma_expand6(m.m22, m.m12, m.m31, m.m43, m.m33, m.m41);
    lemma_expand6(m.m22, m.m13, m.m31, m.m42, m.m32, m.m41);
    lemma_mul4_perm(m.m13, m.m22, m.m31, m.m42);
    lemma_mul4_perm(m.m13, m.m22, m.m32, m.m41);
    lemma_expand6(m.m32, m.m11, m.m22, m.m43, m.m23, m.m42);
    lemma_mul4_perm(m.m11, m.m23, m.m32, m.m42);
    lemma_expand6(m.m32, m.m12, m.m21, m.m43, m.m23, m.m41);
    lemma_expand6(m.m32, m.m13, m.m21, m.m42, m.m22, m.m41);
    lemma_mul4_perm(m.m13, m.m21, m.m32, m.m42);
    lemma_expand6(m.m42, m.m11, m.m22, m.m33, m.m23, m.m32);
    lemma_expand6(m.m42, m.m12, m.m21, m.m33, m.m23, m.m31);
    lemma_expand6(m.m42, m.m13, m.m21, m.m32, m.m22, m.m31);
}

proof fn lemma_adjugate_times_entry_43(m: Mat4)
    ensures
        m.adjugate().mul(m).m43 == 0,
{
    lemma_comm(-((m.m21 * (m.m32 * m.m43 - m.m33 * m.m42) - m.m22 * (m.m31 * m.m43 - m.m33 * m.m41)) + m.m23 * (m.m31 * m.m42 - m.m32 * m.m41)), m.m13);
    lemma_dist3_neg(m.m13, m.m21 * (m.m32 * m.m43 - m.m33 * m.m42), m.m22 * (m.m31 * m.m43 - m.m33 * m.m41), m.m23 * (m.m31 * m.m42 - m.m32 * m.m41));
    lemma_comm((m.m11 * (m.m32 * m.m43 - m.m33 * m.m42) - m.m12 * (m.m31 * m.m43 - m.m33 * m.m41)) + m.m13 * (m.m31 * m.m42 - m.m32 * m.m41), m.m23);
    lemma_dist3(m.m23, m.m11 * (m.m32 * m.m43 - m.m33 * m.m42), m.m12 * (m.m31 * m.m43 - m.m33 * m.m41), m.m13 * (m.m31 * m.m42 - m.m32 * m.m41));
    lemma_comm(-((m.m11 * (m.m22 * m.m43 - m.m23 * m.m42) - m.m12 * (m.m21 * m.m43 - m.m23 * m.m41)) + m.m13 * (m.m21 * m.m42 - m.m22 * m.m41)), m.m33);
    lemma_dist3_neg(m.m33, m.m11 * (m.m22 * m.m43 - m.m23 * m.m42), m.m12 * (m.m21 * m.m43 - m.m23 * m.m41), m.m13 * (m.m21 * m.m42 - m.m22 * m.m41));
    lemma_comm((m.m11 * (m.m22 * m.m33 - m.m23 * m.m32) - m.m12 * (m.m21 * m.m33 - m.m23 * m.m31)) + m.m13 * (m.m21 * m.m32 - m.m22 * m.m31), m.m43);
    lemma_dist3(m.m43, m.m11 * (m.m22 * m.m33 - m.m23 * m.m32), m.m12 * (m.m21 * m.m33 - m.m23 * m.m31), m.m13 * (m.m21 * m.m32 - m.m22 * m.m31));
    lemma_expand6(m.m13, m.m21, m.m32, m.m43, m.m33, m.m42);
    lemma_mul4_perm(m.m13, m.m21, m.m32, m.m43);
    lemma_mul4_perm(m.m13, m.m21, m.m33, m.m42);
    lemma_expand6(m.m13, m.m22, m.m31, m.m43, m.m33, m.m41);
    lemma_mul4_perm(m.m13, m.m22, m.m31, m.m43);
    lemma_mul4_perm(m.m13, m.m22, m.m33, m.m41);
    lemma_expand6(m.m13, m.m23, m.m31, m.m42, m.m32, m.m41);
    lemma_mul4_perm(m.m13, m.m23, m.m31, m.m42);
    lemma_mul4_perm(m.m13, m.m23, m.m32, m.m41);
    lemma_expand6(m.m23, m.m11, m.m32, m.m43, m.m33, m.m42);
    lemma_mul4_perm(m.m11, m.m23, m.m32, m.m43);
    lemma_mul4_perm(m.m11, m.m23, m.m33, m.m42);
    lemma_expand6(m.m23, m.m12, m.m31, m.m43, m.m33, m.m41);
    lemma_mul4_perm(m.m12, m.m23, m.m31, m.m43);
    lemma_mul4_perm(m.m12, m.m23, m.m33, m.m41);
    lemma_expand6(m.m23, m.m13, m.m31, m.m42, m.m32, m.m41);
    lemma_expand6(m.m33, m.m11, m.m22, m.m43, m.m23, m.m42);
    lemma_mul4_perm(m.m11, m.m22, m.m33, m.m43);
    lemma_expand6(m.m33, m.m12, m.m21, m.m43, m.m23, m.m41);
    lemma_mul4_perm(m.m12, m.m21, m.m33, m.m43);
    lemma_expand6(m.m33, m.m13, m.m21, m.m42, m.m22, m.m41);
    lemma_expand6(m.m43, m.m11, m.m22, m.m33, m.m23, m.m32);
    lemma_expand6(m.m43, m.m12, m.m21, m.m33, m.m23, m.m31);
    lemma_expand6(m.m43, m.m13, m.m21, m.m32, m.m22, m.m31);
}

proof fn lemma_adjugate_times_entry_44(m: Mat4)
    ensures
        m.adjugate().mul(m).m44 == m.det(),
{
    lemma_comm(-((m.m21 * (m.m32 * m.m43 - m.m33 * m.m42) - m.m22 * (m.m31 * m.m43 - m.m33 * m.m41)) + m.m23 * (m.m31 * m.m42 - m.m32 * m.m41)), m.m14);
    lemma_dist3_neg(m.m14, m.m21 * (m.m32 * m.m43 - m.m33 * m.m42), m.m22 * (m.m31 * m.m43 - m.m33 * m.m41), m.m23 * (m.m31 * m.m42 - m.m32 * m.m41));
    lemma_comm((m.m11 * (m.m32 * m.m43 - m.m33 * m.m42) - m.m12 * (m.m31 * m.m43 - m.m33 * m.m41)) + m.m13 * (m.m31 * m.m42 - m.m32 * m.m41), m.m24);
    lemma_dist3(m.m24, m.m11 * (m.m32 * m.m43 - m.m33 * m.m42), m.m12 * (m.m31 * m.m43 - m.m33 * m.m41), m.m13 * (m.m31 * m.m42 - m.m32 * m.m41));
    lemma_comm(-((m.m11 * (m.m22 * m.m43 - m.m23 * m.m42) - m.m12 * (m.m21 * m.m43 - m.m23 * m.m41)) + m.m13 * (m.m21 * m.m42 - m.m22 * m.m41)), m.m34);
    lemma_dist3_neg(m.m34, m.m11 * (m.m22 * m.m43 - m.m23 * m.m42), m.m12 * (m.m21 * m.m43 - m.m23 * m.m41), m.m13 * (m.m21 * m.m42 - m.m22 * m.m41));
    lemma_comm((m.m11 * (m.m22 * m.m33 - m.m23 * m.m32) - m.m12 * (m.m21 * m.m33 - m.m23 * m.m31)) + m.m13 * (m.m21 * m.m32 - m.m22 * m.m31), m.m44);
    lemma_dist3(m.m44, m.m11 * (m.m22 * m.m33 - m.m23 * m.m32), m.m12 * (m.m21 * m.m33 - m.m23 * m.m31), m.m13 * (m.m21 * m.m32 - m.m22 * m.m31));
    lemma_expand6(m.m14, m.m21, m.m32, m.m43, m.m33, m.m42);
    lemma_mul4_perm(m.m14, m.m21, m.m32, m.m43);
    lemma_mul4_perm(m.m14, m.m21, m.m33, m.m42);
    lemma_expand6(m.m14, m.m22, m.m31, m.m43, m.m33, m.m41);
    lemma_mul4_perm(m.m14, m.m22, m.m31, m.m43);
    lemma_mul4_perm(m.m14, m.m22, m.m33, m.m41);
    lemma_expand6(m.m14, m.m23, m.m31, m.m42, m.m32, m.m41);
    lemma_mul4_perm(m.m14, m.m23, m.m31, m.m42);
    lemma_mul4_perm(m.m14, m.m23, m.m32, m.m41);
    lemma_expand6(m.m24, m.m11, m.m32, m.m43, m.m33, m.m42);
    lemma_mul4_perm(m.m11, m.m24, m.m32, m.m43);
    lemma_mul4_perm(m.m11, m.m24, m.m33, m.m42);
    lemma_expand6(m.m24, m.m12, m.m31, m.m43, m.m33, m.m41);
    lemma_mul4_perm(m.m12, m.m24, m.m31, m.m43);
    lemma_mul4_perm(m.m12, m.m24, m.m33, m.m41);
    lemma_expand6(m.m24, m.m13, m.m31, m.m42, m.m32, m.m41);
    lemma_mul4_perm(m.m13, m.m24, m.m31, m.m42);
    lemma_mul4_perm(m.m13, m.m24, m.m32, m.m41);
    lemma_expand6(m.m34, m.m11, m.m22, m.m43, m.m23, m.m42);
    lemma_mul4_perm(m.m11, m.m22, m.m34, m.m43);
    lemma_mul4_perm(m.m11, m.m23, m.m34, m.m42);
    lemma_expand6(m.m34, m.m12, m.m21, m.m43, m.m23, m.m41);
    lemma_mul4_perm(m.m12, m.m21, m.m34, m.m43);
    lemma_mul4_perm(m.m12, m.m23, m.m34, m.m41);
    lemma_expand6(m.m34, m.m13, m.m21, m.m42, m.m22, m.m41);
    lemma_mul4_perm(m.m13, m.m21, m.m34, m.m42);
    lemma_mul4_perm(m.m13, m.m22, m.m34, m.m41);
    lemma_expand6(m.m44, m.m11, m.m22, m.m33, m.m23, m.m32);
    lemma_mul4_perm(m.m11, m.m22, m.m33, m.m44);
    lemma_mul4_perm(m.m11, m.m23, m.m32, m.m44);
    lemma_expand6(m.m44, m.m12, m.m21, m.m33, m.m23, m.m31);
    lemma_mul4_perm(m.m12, m.m21, m.m33, m.m44);
    lemma_mul4_perm(m.m12, m.m23, m.m31, m.m44);
    lemma_expand6(m.m44, m.m13, m.m21, m.m32, m.m22, m.m31);
    lemma_mul4_perm(m.m13, m.m21, m.m32, m.m44);
    lemma_mul4_perm(m.m13, m.m22, m.m31, m.m44);
    lemma_dist3(m.m11, m.m22 * (m.m33 * m.m44 - m.m34 * m.m43), m.m23 * (m.m32 * m.m44 - m.m34 * m.m42), m.m24 * (m.m32 * m.m43 - m.m33 * m.m42));
    lemma_expand6(m.m11, m.m22, m.m33, m.m44, m.m34, m.m43);
    lemma_mul4_perm(m.m11, m.m22, m.m33, m.m44);
    lemma_mul4_perm(m.m11, m.m22, m.m34, m.m43);
    lemma_expand6(m.m11, m.m23, m.m32, m.m44, m.m34, m.m42);
    lemma_mul4_perm(m.m11, m.m23, m.m32, m.m44);
    lemma_mul4_perm(m.m11, m.m23, m.m34, m.m42);
    lemma_expand6(m.m11, m.m24, m.m32, m.m43, m.m33, m.m42);
    lemma_mul4_perm(m.m11, m.m24, m.m32, m.m43);
    lemma_mul4_perm(m.m11, m.m24, m.m33, m.m42);
    lemma_dist3(m.m12, m.m21 * (m.m33 * m.m44 - m.m34 * m.m43), m.m23 * (m.m31 * m.m44 - m.m34 * m.m41), m.m24 * (m.m31 * m.m43 - m.m33 * m.m41));
    lemma_expand6(m.m12, m.m21, m.m33, m.m44, m.m34, m.m43);
    lemma_mul4_perm(m.m12, m.m21, m.m33, m.m44);
    lemma_mul4_perm(m.m12, m.m21, m.m34, m.m43);
    lemma_expand6(m.m12, m.m23, m.m31, m.m44, m.m34, m.m41);
    lemma_mul4_perm(m.m12, m.m23, m.m31, m.m44);
    lemma_mul4_perm(m.m12, m.m23, m.m34, m.m41);
    lemma_expand6(m.m12, m.m24, m.m31, m.m43, m.m33, m.m41);
    lemma_mul4_perm(m.m12, m.m24, m.m31, m.m43);
    lemma_mul4_perm(m.m12, m.m24, m.m33, m.m41);
    lemma_dist3(m.m13, m.m21 * (m.m32 * m.m44 - m.m34 * m.m42), m.m22 * (m.m31 * m.m44 - m.m34 * m.m41), m.m24 * (m.m31 * m.m42 - m.m32 * m.m41));
    lemma_expand6(m.m13, m.m21, m.m32, m.m44, m.m34, m.m42);
    lemma_mul4_perm(m.m13, m.m21, m.m32, m.m44);
    lemma_mul4_perm(m.m13, m.m21, m.m34, m.m42);
    lemma_expand6(m.m13, m.m22, m.m31, m.m44, m.m34, m.m41);
    lemma_mul4_perm(m.m13, m.m22, m.m31, m.m44);
    lemma_mul4_perm(m.m13, m.m22, m.m34, m.m41);
    lemma_expand6(m.m13, m.m24, m.m31, m.m42, m.m32, m.m41);
    lemma_mul4_perm(m.m13, m.m24, m.m31, m.m42);
    lemma_mul4_perm(m.m13, m.m24, m.m32, m.m41);
    lemma_dist3(m.m14, m.m21 * (m.m32 * m.m43 - m.m33 * m.m42), m.m22 * (m.m31 * m.m43 - m.m33 * m.m41), m.m23 * (m.m31 * m.m42 - m.m32 * m.m41));
    lemma_expand6(m.m14, m.m21, m.m32, m.m43, m.m33, m.m42);
    lemma_mul4_perm(m.m14, m.m21, m.m32, m.m43);
    lemma_mul4_perm(m.m14, m.m21, m.m33, m.m42);
    lemma_expand6(m.m14, m.m22, m.m31, m.m43, m.m33, m.m41);
    lemma_mul4_perm(m.m14, m.m22, m.m31, m.m43);
    lemma_mul4_perm(m.m14, m.m22, m.m33, m.m41);
    lemma_expand6(m.m14, m.m23, m.m31, m.m42, m.m32, m.m41);
    lemma_mul4_perm(m.m14, m.m23, m.m31, m.m42);
    lemma_mul4_perm(m.m14, m.m23, m.m32, m.m41);
}

/// The product of a matrix with its adjugate, in either order, is its
/// determinant times the identity: the exact content of cofactor
/// inversion, with no condition on the matrix at all.
pub proof fn lemma_mul_adjugate(m: Mat4)
    ensures
        m.mul(m.adjugate()) == Mat4::scalar(m.det()),
        m.adjugate().mul(m) == Mat4::scalar(m.det()),
{
    lemma_times_adjugate_entry_11(m);
    lemma_times_adjugate_entry_12(m);
    lemma_times_adjugate_entry_13(m);
    lemma_times_adjugate_entry_14(m);
    lemma_times_adjugate_entry_21(m);
    lemma_times_adjugate_entry_22(m);
    lemma_times_adjugate_entry_23(m);
    lemma_times_adjugate_entry_24(m);
    lemma_times_adjugate_entry_31(m);
    lemma_times_adjugate_entry_32(m);
    lemma_times_adjugate_entry_33(m);
    lemma_times_adjugate_entry_34(m);
    lemma_times_adjugate_entry_41(m);
    lemma_times_adjugate_entry_42(m);
    lemma_times_adjugate_entry_43(m);
    lemma_times_adjugate_entry_44(m);
    lemma_adjugate_times_entry_11(m);
    lemma_adjugate_times_entry_12(m);
    lemma_adjugate_times_entry_13(m);
    lemma_adjugate_times_entry_14(m);
    lemma_adjugate_times_entry_21(m);
    lemma_adjugate_times_entry_22(m);
    lemma_adjugate_times_entry_23(m);
    lemma_adjugate_times_entry_24(m);
    lemma_adjugate_times_entry_31(m);
    lemma_adjugate_times_entry_32(m);
    lemma_adjugate_times_entry_33(m);
    lemma_adjugate_times_entry_34(m);
    lemma_adjugate_times_entry_41(m);
    lemma_adjugate_times_entry_42(m);
    lemma_adjugate_times_entry_43(m);
    lemma_adjugate_times_entry_44(m);
}

} // verus!
