//! Implicit planes `a*x + b*y + c*z + d == 0` with signed-distance queries,
//! over exact integer coefficients.
use vstd::prelude::*;

use crate::quaternion::Quat;
use crate::quaternion::Quaternion;
use crate::vector3::Vec3;
use crate::vector3::Vector3;
use crate::vector4::Vec4;
use crate::vector4::Vector4;
use crate::{in_range, lemma_mul_bound, COORD_LIMIT};

verus! {

/// Which side of a plane a volume lies on.
#[allow(non_camel_case_types)]
#[derive(Clone, Copy, Debug, PartialEq, Eq, Structural)]
pub enum IntersectionType {
    front,
    back,
    intersecting,
}

/// Mathematical model of a plane: the four coefficients of
/// `a*x + b*y + c*z + d == 0` as unbounded integers.
pub struct Pln {
    pub a: int,
    pub b: int,
    pub c: int,
    pub d: int,
}

impl Pln {
    /// Every coefficient lies within the range the executable operations
    /// accept.
    pub open spec fn bounded(self) -> bool {
        in_range(self.a) && in_range(self.b) && in_range(self.c) && in_range(self.d)
    }

    /// Every coefficient has magnitude at most `b`.
    pub open spec fn bounded_within(self, b: int) -> bool {
        -b <= self.a <= b && -b <= self.b <= b && -b <= self.c <= b && -b <= self.d <= b
    }

    /// The squared length of the normal `(a, b, c)`.
    pub open spec fn normal_len_sq(self) -> int {
        self.a * self.a + self.b * self.b + self.c * self.c
    }

    /// The full four-component dot against a homogeneous vector.
    pub open spec fn dot(self, v: Vec4) -> int {
        ((self.a * v.x + self.b * v.y) + self.c * v.z) + self.d * v.w
    }

    /// The signed distance (scaled by the normal's length) from a point:
    /// includes the offset `d`.
    pub open spec fn dot_coordinate(self, v: Vec3) -> int {
        ((self.a * v.x + self.b * v.y) + self.c * v.z) + self.d
    }

    /// The direction-only dot against the normal: excludes `d`.
    pub open spec fn dot_normal(self, v: Vec3) -> int {
        (self.a * v.x + self.b * v.y) + self.c * v.z
    }

    /// The plane with its normal rotated by a unit quaternion; the offset
    /// `d` is invariant under a rotation about the origin.
    pub open spec fn transform_quaternion(self, q: Quat) -> Pln {
        Pln {
            a: (self.a * ((1 - q.y * (q.y + q.y)) - q.z * (q.z + q.z)) + self.b * (q.x * (q.y
                + q.y) - q.w * (q.z + q.z))) + self.c * (q.x * (q.z + q.z) + q.w * (q.y + q.y)),
            b: (self.a * (q.x * (q.y + q.y) + q.w * (q.z + q.z)) + self.b * ((1 - q.x * (q.x
                + q.x)) - q.z * (q.z + q.z))) + self.c * (q.y * (q.z + q.z) - q.w * (q.x + q.x)),
            c: (self.a * (q.x * (q.z + q.z) - q.w * (q.y + q.y)) + self.b * (q.y * (q.z + q.z)
                + q.w * (q.x + q.x))) + self.c * ((1 - q.x * (q.x + q.x)) - q.y * (q.y + q.y)),
            d: self.d,
        }
    }
}

/// A plane with exact `i128` coefficients.
#[derive(Clone, Copy, Debug, PartialEq, Eq, Structural)]
pub struct Plane {
    pub a: i128,
    pub b: i128,
    pub c: i128,
    pub d: i128,
}

impl View for Plane {
    type V = Pln;

    open spec fn view(&self) -> Pln {
        Pln { a: self.a as int, b: self.b as int, c: self.c as int, d: self.d as int }
    }
}

impl Plane {
    pub fn new(a: i128, b: i128, c: i128, d: i128) -> (r: Plane)
        ensures
            r@ == (Pln { a: a as int, b: b as int, c: c as int, d: d as int }),
    {
        Plane { a, b, c, d }
    }

    /// The full four-component dot of `plane` against a homogeneous vector.
    pub fn dot(plane: Plane, vector: Vector4) -> (r: i128)
        requires
            plane@.bounded(),
            vector@.bounded(),
        ensures
            r == plane@.dot(vector@),
    {
        proof {
            let l: int = COORD_LIMIT as int;
            lemma_mul_bound(plane.a as int, l, vector.x as int, l);
            lemma_mul_bound(plane.b as int, l, vector.y as int, l);
            lemma_mul_bound(plane.c as int, l, vector.z as int, l);
            lemma_mul_bound(plane.d as int, l, vector.w as int, l);
        }
        ((plane.a * vector.x + plane.b * vector.y) + plane.c * vector.z) + plane.d * vector.w
    }

    /// The signed distance (scaled by the normal's length) of a point from
    /// the plane: includes the offset `d`.
    pub fn dot_coordinate(plane: Plane, vector: Vector3) -> (r: i128)
        requires
            plane@.bounded(),
            vector@.bounded(),
        ensures
            r == plane@.dot_coordinate(vector@),
    {
        proof {
            let l: int = COORD_LIMIT as int;
            lemma_mul_bound(plane.a as int, l, vector.x as int, l);
            lemma_mul_bound(plane.b as int, l, vector.y as int, l);
            lemma_mul_bound(plane.c as int, l, vector.z as int, l);
        }
        ((plane.a * vector.x + plane.b * vector.y) + plane.c * vector.z) + plane.d
    }

    /// The direction-only dot of the plane's normal against a vector:
    /// excludes `d`.
    pub fn dot_normal(plane: Plane, vector: Vector3) -> (r: i128)
        requires
            plane@.bounded(),
            vector@.bounded(),
        ensures
            r == plane@.dot_normal(vector@),
    {
        proof {
            let l: int = COORD_LIMIT as int;
            lemma_mul_bound(plane.a as int, l, vector.x as int, l);
            lemma_mul_bound(plane.b as int, l, vector.y as int, l);
            lemma_mul_bound(plane.c as int, l, vector.z as int, l);
        }
        (plane.a * vector.x + plane.b * vector.y) + plane.c * vector.z
    }

    /// The plane with its normal rotated by the unit quaternion `rotation`;
    /// the offset `d` is untouched.
    pub fn transform_quaternion(plane: Plane, rotation: Quaternion) -> (r: Plane)
        requires
            plane@.bounded(),
            rotation@.bounded(),
        ensures
            r@ == plane@.transform_quaternion(rotation@),
    {
        let num15 = rotation.x + rotation.x;
        let num5 = rotation.y + rotation.y;
        let num = rotation.z + rotation.z;
        proof {
            let l: int = COORD_LIMIT as int;
            lemma_mul_bound(rotation.w as int, l, num15 as int, 2 * l);
            lemma_mul_bound(rotation.w as int, l, num5 as int, 2 * l);
            lemma_mul_bound(rotation.w as int, l, num as int, 2 * l);
            lemma_mul_bound(rotation.x as int, l, num15 as int, 2 * l);
            lemma_mul_bound(rotation.x as int, l, num5 as int, 2 * l);
            lemma_mul_bound(rotation.x as int, l, num as int, 2 * l);
            lemma_mul_bound(rotation.y as int, l, num5 as int, 2 * l);
            lemma_mul_bound(rotation.y as int, l, num as int, 2 * l);
            lemma_mul_bound(rotation.z as int, l, num as int, 2 * l);
        }
        let num14 = rotation.w * num15;
        let num13 = rotation.w * num5;
        let num12 = rotation.w * num;
        let num11 = rotation.x * num15;
        let num10 = rotation.x * num5;
        let num9 = rotation.x * num;
        let num8 = rotation.y * num5;
        let num7 = rotation.y * num;
        let num6 = rotation.z * num;
        let num24 = (1 - num8) - num6;
        let num23 = num10 - num12;
        let num22 = num9 + num13;
        let num21 = num10 + num12;
        let num20 = (1 - num11) - num6;
        let num19 = num7 - num14;
        let num18 = num9 - num13;
        let num17 = num7 + num14;
        let num16 = (1 - num11) - num8;
        proof {
            let l: int = COORD_LIMIT as int;
            let h: int = 1 + 4 * l * l;
            lemma_mul_bound(plane.a as int, l, num24 as int, h);
            lemma_mul_bound(plane.b as int, l, num23 as int, h);
            lemma_mul_bound(plane.c as int, l, num22 as int, h);
            lemma_mul_bound(plane.a as int, l, num21 as int, h);
            lemma_mul_bound(plane.b as int, l, num20 as int, h);
            lemma_mul_bound(plane.c as int, l, num19 as int, h);
            lemma_mul_bound(plane.a as int, l, num18 as int, h);
            lemma_mul_bound(plane.b as int, l, num17 as int, h);
            lemma_mul_bound(plane.c as int, l, num16 as int, h);
        }
        Plane {
            a: (plane.a * num24 + plane.b * num23) + plane.c * num22,
            b: (plane.a * num21 + plane.b * num20) + plane.c * num19,
            c: (plane.a * num18 + plane.b * num17) + plane.c * num16,
            d: plane.d,
        }
    }
}

/// The full homogeneous dot against a point with weight one is the signed
/// distance with its offset; against a direction with weight zero it is
/// the direction-only dot.
pub proof fn lemma_dot_homogeneous(p: Pln, v: Vec3)
    ensures
        p.dot(Vec4 { x: v.x, y: v.y, z: v.z, w: 1 }) == p.dot_coordinate(v),
        p.dot(Vec4 { x: v.x, y: v.y, z: v.z, w: 0 }) == p.dot_normal(v),
{
    assert(p.d * 1 == p.d) by (nonlinear_arith);
    assert(p.d * 0 == 0) by (nonlinear_arith);
}

/// Rotating a plane by a unit quaternion keeps the squared length of its
/// normal, and keeps its offset exactly.
pub proof fn lemma_transform_quaternion_normal_length(p: Pln, q: Quat)
    requires
        q.is_unit(),
    ensures
        p.transform_quaternion(q).normal_len_sq() == p.normal_len_sq(),
        p.transform_quaternion(q).d == p.d,
{
    let r = p.transform_quaternion(q);
    assert(r.normal_len_sq() == p.normal_len_sq()) by (nonlinear_arith)
        requires
            q.x * q.x + q.y * q.y + q.z * q.z + q.w * q.w == 1,
            r == p.transform_quaternion(q),
    {
        assert(r.a == (p.a * ((1 - q.y * (q.y + q.y)) - q.z * (q.z + q.z)) + p.b * (q.x * (q.y
            + q.y) - q.w * (q.z + q.z))) + p.c * (q.x * (q.z + q.z) + q.w * (q.y + q.y)));
    }
}

} // verus!
