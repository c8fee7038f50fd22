//! Three-component vectors over exact integer coordinates.
use vstd::prelude::*;

use crate::matrix::Mat4;
use crate::matrix::Matrix;
use crate::quaternion::Quat;
use crate::quaternion::Quaternion;
use crate::{in_range, lemma_mul_bound, COORD_LIMIT};

verus! {

/// Mathematical model of a three-component vector: a triple of unbounded
/// integers. All contracts and laws are stated over this type.
pub struct Vec3 {
    pub x: int,
    pub y: int,
    pub z: int,
}

impl Vec3 {
    /// Every coordinate lies within the range the executable operations accept.
    pub open spec fn bounded(self) -> bool {
        in_range(self.x) && in_range(self.y) && in_range(self.z)
    }

    pub open spec fn add(self, rhs: Vec3) -> Vec3 {
        Vec3 { x: self.x + rhs.x, y: self.y + rhs.y, z: self.z + rhs.z }
    }

    pub open spec fn sub(self, rhs: Vec3) -> Vec3 {
        Vec3 { x: self.x - rhs.x, y: self.y - rhs.y, z: self.z - rhs.z }
    }

    /// Componentwise product.
    pub open spec fn mul(self, rhs: Vec3) -> Vec3 {
        Vec3 { x: self.x * rhs.x, y: self.y * rhs.y, z: self.z * rhs.z }
    }

    pub open spec fn scale(self, k: int) -> Vec3 {
        Vec3 { x: self.x * k, y: self.y * k, z: self.z * k }
    }

    pub open spec fn neg(self) -> Vec3 {
        Vec3 { x: -self.x, y: -self.y, z: -self.z }
    }

    pub open spec fn dot(self, rhs: Vec3) -> int {
        self.x * rhs.x + self.y * rhs.y + self.z * rhs.z
    }

    pub open spec fn len_sq(self) -> int {
        self.x * self.x + self.y * self.y + self.z * self.z
    }

    /// The squared distance between two points.
    pub open spec fn dist_sq(self, rhs: Vec3) -> int {
        (self.x - rhs.x) * (self.x - rhs.x) + (self.y - rhs.y) * (self.y - rhs.y) + (self.z
            - rhs.z) * (self.z - rhs.z)
    }

    /// A direction of length one; only these are honest unit normals.
    pub open spec fn is_unit(self) -> bool {
        self.len_sq() == 1
    }

    pub open spec fn cross(self, rhs: Vec3) -> Vec3 {
        Vec3 {
            x: self.y * rhs.z - self.z * rhs.y,
            y: self.z * rhs.x - self.x * rhs.z,
            z: self.x * rhs.y - self.y * rhs.x,
        }
    }

    /// Mirror of a vector about a normal direction: the vector minus twice
    /// its projection onto the normal.
    pub open spec fn reflect(self, normal: Vec3) -> Vec3 {
        Vec3 {
            x: self.x - 2 * self.dot(normal) * normal.x,
            y: self.y - 2 * self.dot(normal) * normal.y,
            z: self.z - 2 * self.dot(normal) * normal.z,
        }
    }

    pub open spec fn min(self, rhs: Vec3) -> Vec3 {
        Vec3 {
            x: if self.x < rhs.x { self.x } else { rhs.x },
            y: if self.y < rhs.y { self.y } else { rhs.y },
            z: if self.z < rhs.z { self.z } else { rhs.z },
        }
    }

    pub open spec fn max(self, rhs: Vec3) -> Vec3 {
        Vec3 {
            x: if self.x > rhs.x { self.x } else { rhs.x },
            y: if self.y > rhs.y { self.y } else { rhs.y },
            z: if self.z > rhs.z { self.z } else { rhs.z },
        }
    }

    /// Caps to `hi` first, then floors to `lo`, componentwise; where a floor
    /// exceeds its cap the floor wins.
    pub open spec fn clamp(self, lo: Vec3, hi: Vec3) -> Vec3 {
        self.min(hi).max(lo)
    }

    /// Unclamped linear interpolation `self + (rhs - self) * t`.
    pub open spec fn lerp(self, rhs: Vec3, t: int) -> Vec3 {
        Vec3 {
            x: self.x + (rhs.x - self.x) * t,
            y: self.y + (rhs.y - self.y) * t,
            z: self.z + (rhs.z - self.z) * t,
        }
    }

    /// The point with barycentric coordinates `(a1, a2)` in the triangle
    /// `(self, v2, v3)`.
    pub open spec fn barycentric(self, v2: Vec3, v3: Vec3, a1: int, a2: int) -> Vec3 {
        Vec3 {
            x: self.x + a1 * (v2.x - self.x) + a2 * (v3.x - self.x),
            y: self.y + a1 * (v2.y - self.y) + a2 * (v3.y - self.y),
            z: self.z + a1 * (v2.z - self.z) + a2 * (v3.z - self.z),
        }
    }

    /// The cubic Hermite blend weight: `t` clamped to the unit interval,
    /// then passed through `t * t * (3 - 2 * t)`.
    pub open spec fn smooth_weight(t: int) -> int {
        let c = if t > 1 { 1int } else if t < 0 { 0int } else { t };
        c * c * (3 - 2 * c)
    }

    /// Interpolation by the clamped cubic Hermite weight of `t`.
    pub open spec fn smooth_step(self, rhs: Vec3, t: int) -> Vec3 {
        self.lerp(rhs, Vec3::smooth_weight(t))
    }

    /// One coordinate of the Catmull-Rom spline through four control
    /// values, doubled; the doubled combination is even for every integer
    /// input, so halving it is exact.
    pub open spec fn catmull_twice(p1: int, p2: int, p3: int, p4: int, t: int) -> int {
        2 * p2 + (-p1 + p3) * t + ((2 * p1 - 5 * p2 + 4 * p3) - p4) * (t * t) + ((-p1 + 3 * p2
            - 3 * p3) + p4) * (t * (t * t))
    }

    /// The Catmull-Rom spline through `v1..v4`, evaluated at `t`.
    pub open spec fn catmull_rom(v1: Vec3, v2: Vec3, v3: Vec3, v4: Vec3, t: int) -> Vec3 {
        Vec3 {
            x: Vec3::catmull_twice(v1.x, v2.x, v3.x, v4.x, t) / 2,
            y: Vec3::catmull_twice(v1.y, v2.y, v3.y, v4.y, t) / 2,
            z: Vec3::catmull_twice(v1.z, v2.z, v3.z, v4.z, t) / 2,
        }
    }

    /// One coordinate of the cubic Hermite spline with endpoints `p1`, `p2`
    /// and tangents `m1`, `m2`, evaluated at `t`.
    pub open spec fn hermite_coord(p1: int, m1: int, p2: int, m2: int, t: int) -> int {
        let t2 = t * t;
        let t3 = t * (t * t);
        p1 * ((2 * t3 - 3 * t2) + 1) + p2 * (-2 * t3 + 3 * t2) + m1 * ((t3 - 2 * t2) + t) + m2 * (
        t3 - t2)
    }

    /// The cubic Hermite spline with the given endpoints and tangents.
    pub open spec fn hermite(v1: Vec3, t1: Vec3, v2: Vec3, t2: Vec3, t: int) -> Vec3 {
        Vec3 {
            x: Vec3::hermite_coord(v1.x, t1.x, v2.x, t2.x, t),
            y: Vec3::hermite_coord(v1.y, t1.y, v2.y, t2.y, t),
            z: Vec3::hermite_coord(v1.z, t1.z, v2.z, t2.z, t),
        }
    }

    /// The point carried by an affine transform: the row vector times the
    /// matrix's linear block, plus the translation row.
    pub open spec fn transform(self, m: Mat4) -> Vec3 {
        Vec3 {
            x: ((self.x * m.m11 + self.y * m.m21) + self.z * m.m31) + m.m41,
            y: ((self.x * m.m12 + self.y * m.m22) + self.z * m.m32) + m.m42,
            z: ((self.x * m.m13 + self.y * m.m23) + self.z * m.m33) + m.m43,
        }
    }

    /// The direction carried by a transform: the row vector times the
    /// linear block only, with no translation.
    pub open spec fn transform_normal(self, m: Mat4) -> Vec3 {
        Vec3 {
            x: (self.x * m.m11 + self.y * m.m21) + self.z * m.m31,
            y: (self.x * m.m12 + self.y * m.m22) + self.z * m.m32,
            z: (self.x * m.m13 + self.y * m.m23) + self.z * m.m33,
        }
    }

    /// The vector rotated by a unit quaternion (the sandwich product
    /// written out as nine products of doubled components).
    pub open spec fn transform_quaternion(self, q: Quat) -> Vec3 {
        Vec3 {
            x: (self.x * ((1 - q.y * (q.y + q.y)) - q.z * (q.z + q.z)) + self.y * (q.x * (q.y
                + q.y) - q.w * (q.z + q.z))) + self.z * (q.x * (q.z + q.z) + q.w * (q.y + q.y)),
            y: (self.x * (q.x * (q.y + q.y) + q.w * (q.z + q.z)) + self.y * ((1 - q.x * (q.x
                + q.x)) - q.z * (q.z + q.z))) + self.z * (q.y * (q.z + q.z) - q.w * (q.x + q.x)),
            z: (self.x * (q.x * (q.z + q.z) - q.w * (q.y + q.y)) + self.y * (q.y * (q.z + q.z)
                + q.w * (q.x + q.x))) + self.z * ((1 - q.x * (q.x + q.x)) - q.y * (q.y + q.y)),
        }
    }
}

/// A three-component vector with exact `i128` coordinates.
#[derive(Clone, Copy, Debug, PartialEq, Eq, Structural)]
pub struct Vector3 {
    pub x: i128,
    pub y: i128,
    pub z: i128,
}

impl View for Vector3 {
    type V = Vec3;

    open spec fn view(&self) -> Vec3 {
        Vec3 { x: self.x as int, y: self.y as int, z: self.z as int }
    }
}

impl Vector3 {
    pub fn new(x: i128, y: i128, z: i128) -> (r: Vector3)
        ensures
            r@ == (Vec3 { x: x as int, y: y as int, z: z as int }),
    {
        Vector3 { x, y, z }
    }

    pub fn zero() -> (r: Vector3)
        ensures
            r@ == (Vec3 { x: 0, y: 0, z: 0 }),
    {
        Vector3 { x: 0, y: 0, z: 0 }
    }

    pub fn one() -> (r: Vector3)
        ensures
            r@ == (Vec3 { x: 1, y: 1, z: 1 }),
    {
        Vector3 { x: 1, y: 1, z: 1 }
    }

    pub fn up() -> (r: Vector3)
        ensures
            r@ == (Vec3 { x: 0, y: -1, z: 0 }),
    {
        Vector3 { x: 0, y: -1, z: 0 }
    }

    pub fn down() -> (r: Vector3)
        ensures
            r@ == (Vec3 { x: 0, y: 1, z: 0 }),
    {
        Vector3 { x: 0, y: 1, z: 0 }
    }

    pub fn left() -> (r: Vector3)
        ensures
            r@ == (Vec3 { x: -1, y: 0, z: 0 }),
    {
        Vector3 { x: -1, y: 0, z: 0 }
    }

    pub fn right() -> (r: Vector3)
        ensures
            r@ == (Vec3 { x: 1, y: 0, z: 0 }),
    {
        Vector3 { x: 1, y: 0, z: 0 }
    }

    pub fn forward() -> (r: Vector3)
        ensures
            r@ == (Vec3 { x: 0, y: 0, z: 1 }),
    {
        Vector3 { x: 0, y: 0, z: 1 }
    }

    pub fn backward() -> (r: Vector3)
        ensures
            r@ == (Vec3 { x: 0, y: 0, z: -1 }),
    {
        Vector3 { x: 0, y: 0, z: -1 }
    }

    /// Exact per-field equality.
    pub fn equals(&self, other: Vector3) -> (r: bool)
        ensures
            r == (self@ == other@),
    {
        self.x == other.x && self.y == other.y && self.z == other.z
    }

    pub fn add(self, rhs: Vector3) -> (r: Vector3)
        requires
            self@.bounded(),
            rhs@.bounded(),
        ensures
            r@ == self@.add(rhs@),
    {
        Vector3 { x: self.x + rhs.x, y: self.y + rhs.y, z: self.z + rhs.z }
    }

    pub fn sub(self, rhs: Vector3) -> (r: Vector3)
        requires
            self@.bounded(),
            rhs@.bounded(),
        ensures
            r@ == self@.sub(rhs@),
    {
        Vector3 { x: self.x - rhs.x, y: self.y - rhs.y, z: self.z - rhs.z }
    }

    /// Componentwise product.
    pub fn mul(self, rhs: Vector3) -> (r: Vector3)
        requires
            self@.bounded(),
            rhs@.bounded(),
        ensures
            r@ == self@.mul(rhs@),
    {
        proof {
            let l: int = COORD_LIMIT as int;
            lemma_mul_bound(self.x as int, l, rhs.x as int, l);
            lemma_mul_bound(self.y as int, l, rhs.y as int, l);
            lemma_mul_bound(self.z as int, l, rhs.z as int, l);
        }
        Vector3 { x: self.x * rhs.x, y: self.y * rhs.y, z: self.z * rhs.z }
    }

    /// Scalar product.
    pub fn mul_scalar(self, rhs: i128) -> (r: Vector3)
        requires
            self@.bounded(),
            in_range(rhs as int),
        ensures
            r@ == self@.scale(rhs as int),
    {
        proof {
            let l: int = COORD_LIMIT as int;
            lemma_mul_bound(self.x as int, l, rhs as int, l);
            lemma_mul_bound(self.y as int, l, rhs as int, l);
            lemma_mul_bound(self.z as int, l, rhs as int, l);
        }
        Vector3 { x: self.x * rhs, y: self.y * rhs, z: self.z * rhs }
    }

    pub fn negate(value: Vector3) -> (r: Vector3)
        requires
            value@.bounded(),
        ensures
            r@ == value@.neg(),
    {
        Vector3 { x: -value.x, y: -value.y, z: -value.z }
    }

    pub fn length_squared(self) -> (r: i128)
        requires
            self@.bounded(),
        ensures
            r == self@.len_sq(),
    {
        proof {
            let l: int = COORD_LIMIT as int;
            lemma_mul_bound(self.x as int, l, self.x as int, l);
            lemma_mul_bound(self.y as int, l, self.y as int, l);
            lemma_mul_bound(self.z as int, l, self.z as int, l);
        }
        self.x * self.x + self.y * self.y + self.z * self.z
    }

    pub fn dot(value1: Vector3, value2: Vector3) -> (r: i128)
        requires
            value1@.bounded(),
            value2@.bounded(),
        ensures
            r == value1@.dot(value2@),
    {
        proof {
            let l: int = COORD_LIMIT as int;
            lemma_mul_bound(value1.x as int, l, value2.x as int, l);
            lemma_mul_bound(value1.y as int, l, value2.y as int, l);
            lemma_mul_bound(value1.z as int, l, value2.z as int, l);
        }
        value1.x * value2.x + value1.y * value2.y + value1.z * value2.z
    }

    pub fn cross(value1: Vector3, value2: Vector3) -> (r: Vector3)
        requires
            value1@.bounded(),
            value2@.bounded(),
        ensures
            r@ == value1@.cross(value2@),
    {
        proof {
            let l: int = COORD_LIMIT as int;
            lemma_mul_bound(value1.y as int, l, value2.z as int, l);
            lemma_mul_bound(value1.z as int, l, value2.y as int, l);
            lemma_mul_bound(value1.z as int, l, value2.x as int, l);
            lemma_mul_bound(value1.x as int, l, value2.z as int, l);
            lemma_mul_bound(value1.x as int, l, value2.y as int, l);
            lemma_mul_bound(value1.y as int, l, value2.x as int, l);
        }
        Vector3 {
            x: value1.y * value2.z - value1.z * value2.y,
            y: value1.z * value2.x - value1.x * value2.z,
            z: value1.x * value2.y - value1.y * value2.x,
        }
    }

    pub fn reflect(vector: Vector3, normal: Vector3) -> (r: Vector3)
        requires
            vector@.bounded(),
            normal@.bounded(),
        ensures
            r@ == vector@.reflect(normal@),
    {
        proof {
            let l: int = COORD_LIMIT as int;
            lemma_mul_bound(vector.x as int, l, normal.x as int, l);
            lemma_mul_bound(vector.y as int, l, normal.y as int, l);
            lemma_mul_bound(vector.z as int, l, normal.z as int, l);
        }
        let num = vector.x * normal.x + vector.y * normal.y + vector.z * normal.z;
        proof {
            let l: int = COORD_LIMIT as int;
            lemma_mul_bound(2 * (num as int), 6 * l * l, normal.x as int, l);
            lemma_mul_bound(2 * (num as int), 6 * l * l, normal.y as int, l);
            lemma_mul_bound(2 * (num as int), 6 * l * l, normal.z as int, l);
        }
        Vector3 {
            x: vector.x - 2 * num * normal.x,
            y: vector.y - 2 * num * normal.y,
            z: vector.z - 2 * num * normal.z,
        }
    }

    pub fn min(value1: Vector3, value2: Vector3) -> (r: Vector3)
        ensures
            r@ == value1@.min(value2@),
    {
        Vector3 {
            x: if value1.x < value2.x { value1.x } else { value2.x },
            y: if value1.y < value2.y { value1.y } else { value2.y },
            z: if value1.z < value2.z { value1.z } else { value2.z },
        }
    }

    pub fn max(value1: Vector3, value2: Vector3) -> (r: Vector3)
        ensures
            r@ == value1@.max(value2@),
    {
        Vector3 {
            x: if value1.x > value2.x { value1.x } else { value2.x },
            y: if value1.y > value2.y { value1.y } else { value2.y },
            z: if value1.z > value2.z { value1.z } else { value2.z },
        }
    }

    /// Caps to `max` first, then floors to `min`, componentwise, so the
    /// floor wins where the caller passes a floor above the cap.
    pub fn clamp(value1: Vector3, min: Vector3, max: Vector3) -> (r: Vector3)
        ensures
            r@ == value1@.clamp(min@, max@),
    {
        let mut x = value1.x;
        x = if x > max.x { max.x } else { x };
        x = if x < min.x { min.x } else { x };
        let mut y = value1.y;
        y = if y > max.y { max.y } else { y };
        y = if y < min.y { min.y } else { y };
        let mut z = value1.z;
        z = if z > max.z { max.z } else { z };
        z = if z < min.z { min.z } else { z };
        Vector3 { x, y, z }
    }

    /// Unclamped linear interpolation: an `amount` of zero returns
    /// `value1`, one returns `value2`, anything else extrapolates.
    pub fn lerp(value1: Vector3, value2: Vector3, amount: i128) -> (r: Vector3)
        requires
            value1@.bounded(),
            value2@.bounded(),
            in_range(amount as int),
        ensures
            r@ == value1@.lerp(value2@, amount as int),
    {
        proof {
            let l: int = COORD_LIMIT as int;
            lemma_mul_bound(value2.x as int - value1.x as int, 2 * l, amount as int, l);
            lemma_mul_bound(value2.y as int - value1.y as int, 2 * l, amount as int, l);
            lemma_mul_bound(value2.z as int - value1.z as int, 2 * l, amount as int, l);
        }
        Vector3 {
            x: value1.x + (value2.x - value1.x) * amount,
            y: value1.y + (value2.y - value1.y) * amount,
            z: value1.z + (value2.z - value1.z) * amount,
        }
    }

    pub fn barycentric(value1: Vector3, value2: Vector3, value3: Vector3, amount1: i128, amount2: i128) -> (r: Vector3)
        requires
            value1@.bounded(),
            value2@.bounded(),
            value3@.bounded(),
            in_range(amount1 as int),
            in_range(amount2 as int),
        ensures
            r@ == value1@.barycentric(value2@, value3@, amount1 as int, amount2 as int),
    {
        proof {
            let l: int = COORD_LIMIT as int;
            lemma_mul_bound(amount1 as int, l, value2.x as int - value1.x as int, 2 * l);
            lemma_mul_bound(amount2 as int, l, value3.x as int - value1.x as int, 2 * l);
            lemma_mul_bound(amount1 as int, l, value2.y as int - value1.y as int, 2 * l);
            lemma_mul_bound(amount2 as int, l, value3.y as int - value1.y as int, 2 * l);
            lemma_mul_bound(amount1 as int, l, value2.z as int - value1.z as int, 2 * l);
            lemma_mul_bound(amount2 as int, l, value3.z as int - value1.z as int, 2 * l);
        }
        Vector3 {
            x: value1.x + amount1 * (value2.x - value1.x) + amount2 * (value3.x - value1.x),
            y: value1.y + amount1 * (value2.y - value1.y) + amount2 * (value3.y - value1.y),
            z: value1.z + amount1 * (value2.z - value1.z) + amount2 * (value3.z - value1.z),
        }
    }

    /// Interpolation by the clamped cubic Hermite weight of `amount`.
    pub fn smooth_step(value1: Vector3, value2: Vector3, amount: i128) -> (r: Vector3)
        requires
            value1@.bounded(),
            value2@.bounded(),
        ensures
            r@ == Vec3::smooth_step(value1@, value2@, amount as int),
    {
        let mut a = amount;
        a = if a > 1 { 1 } else if a < 0 { 0 } else { a };
        proof {
            lemma_mul_bound(a as int, 1, a as int, 1);
        }
        let s = a * a * (3 - 2 * a);
        proof {
            let l: int = COORD_LIMIT as int;
            lemma_mul_bound(a as int * a as int, 1, 3 - 2 * (a as int), 3);
            lemma_mul_bound(value2.x as int - value1.x as int, 2 * l, s as int, 3);
            lemma_mul_bound(value2.y as int - value1.y as int, 2 * l, s as int, 3);
            lemma_mul_bound(value2.z as int - value1.z as int, 2 * l, s as int, 3);
        }
        Vector3 {
            x: value1.x + (value2.x - value1.x) * s,
            y: value1.y + (value2.y - value1.y) * s,
            z: value1.z + (value2.z - value1.z) * s,
        }
    }

    /// The Catmull-Rom spline through the four control points, evaluated
    /// at the integer parameter `amount`; the result is exact.
    pub fn catmull_rom(value1: Vector3, value2: Vector3, value3: Vector3, value4: Vector3, amount: i128) -> (r: Vector3)
        requires
            value1@.bounded(),
            value2@.bounded(),
            value3@.bounded(),
            value4@.bounded(),
            in_range(amount as int),
        ensures
            r@ == Vec3::catmull_rom(value1@, value2@, value3@, value4@, amount as int),
    {
        proof {
            let l: int = COORD_LIMIT as int;
            lemma_mul_bound(amount as int, l, amount as int, l);
        }
        let num = amount * amount;
        proof {
            let l: int = COORD_LIMIT as int;
            lemma_mul_bound(amount as int, l, num as int, l * l);
        }
        let num2 = amount * num;
        proof {
            let l: int = COORD_LIMIT as int;
            lemma_mul_bound(-value1.x as int + value3.x as int, 2 * l, amount as int, l);
            lemma_mul_bound(-value1.y as int + value3.y as int, 2 * l, amount as int, l);
            lemma_mul_bound(-value1.z as int + value3.z as int, 2 * l, amount as int, l);
            lemma_mul_bound(
                (2 * value1.x as int - 5 * value2.x as int + 4 * value3.x as int) - value4.x as int,
                12 * l,
                num as int,
                l * l,
            );
            lemma_mul_bound(
                (2 * value1.y as int - 5 * value2.y as int + 4 * value3.y as int) - value4.y as int,
                12 * l,
                num as int,
                l * l,
            );
            lemma_mul_bound(
                (2 * value1.z as int - 5 * value2.z as int + 4 * value3.z as int) - value4.z as int,
                12 * l,
                num as int,
                l * l,
            );
            lemma_mul_bound(
                (-value1.x as int + 3 * value2.x as int - 3 * value3.x as int) + value4.x as int,
                8 * l,
                num2 as int,
                l * l * l,
            );
            lemma_mul_bound(
                (-value1.y as int + 3 * value2.y as int - 3 * value3.y as int) + value4.y as int,
                8 * l,
                num2 as int,
                l * l * l,
            );
            lemma_mul_bound(
                (-value1.z as int + 3 * value2.z as int - 3 * value3.z as int) + value4.z as int,
                8 * l,
                num2 as int,
                l * l * l,
            );
        }
        let px = 2 * value2.x + (-value1.x + value3.x) * amount + ((2 * value1.x - 5 * value2.x
            + 4 * value3.x) - value4.x) * num + ((-value1.x + 3 * value2.x - 3 * value3.x)
            + value4.x) * num2;
        let py = 2 * value2.y + (-value1.y + value3.y) * amount + ((2 * value1.y - 5 * value2.y
            + 4 * value3.y) - value4.y) * num + ((-value1.y + 3 * value2.y - 3 * value3.y)
            + value4.y) * num2;
        let pz = 2 * value2.z + (-value1.z + value3.z) * amount + ((2 * value1.z - 5 * value2.z
            + 4 * value3.z) - value4.z) * num + ((-value1.z + 3 * value2.z - 3 * value3.z)
            + value4.z) * num2;
        proof {
            lemma_catmull_twice_even(
                value1.x as int,
                value2.x as int,
                value3.x as int,
                value4.x as int,
                amount as int,
            );
            lemma_catmull_twice_even(
                value1.y as int,
                value2.y as int,
                value3.y as int,
                value4.y as int,
                amount as int,
            );
            lemma_catmull_twice_even(
                value1.z as int,
                value2.z as int,
                value3.z as int,
                value4.z as int,
                amount as int,
            );
        }
        Vector3 { x: px / 2, y: py / 2, z: pz / 2 }
    }

    /// The cubic Hermite spline with endpoints `value1`, `value2` and
    /// tangents `tangent1`, `tangent2`, evaluated at `amount`.
    pub fn hermite(value1: Vector3, tangent1: Vector3, value2: Vector3, tangent2: Vector3, amount: i128) -> (r: Vector3)
        requires
            value1@.bounded(),
            tangent1@.bounded(),
            value2@.bounded(),
            tangent2@.bounded(),
            in_range(amount as int),
        ensures
            r@ == Vec3::hermite(value1@, tangent1@, value2@, tangent2@, amount as int),
    {
        proof {
            let l: int = COORD_LIMIT as int;
            lemma_mul_bound(amount as int, l, amount as int, l);
        }
        let num = amount * amount;
        proof {
            let l: int = COORD_LIMIT as int;
            lemma_mul_bound(amount as int, l, num as int, l * l);
        }
        let num2 = amount * num;
        let num6 = (2 * num2 - 3 * num) + 1;
        let num5 = 3 * num - 2 * num2;
        let num4 = (num2 - 2 * num) + amount;
        let num3 = num2 - num;
        proof {
            let l: int = COORD_LIMIT as int;
            let h: int = 6 * (l * l * l);
            lemma_mul_bound(value1.x as int, l, num6 as int, h);
            lemma_mul_bound(value1.y as int, l, num6 as int, h);
            lemma_mul_bound(value1.z as int, l, num6 as int, h);
            lemma_mul_bound(value2.x as int, l, num5 as int, h);
            lemma_mul_bound(value2.y as int, l, num5 as int, h);
            lemma_mul_bound(value2.z as int, l, num5 as int, h);
            lemma_mul_bound(tangent1.x as int, l, num4 as int, h);
            lemma_mul_bound(tangent1.y as int, l, num4 as int, h);
            lemma_mul_bound(tangent1.z as int, l, num4 as int, h);
            lemma_mul_bound(tangent2.x as int, l, num3 as int, h);
            lemma_mul_bound(tangent2.y as int, l, num3 as int, h);
            lemma_mul_bound(tangent2.z as int, l, num3 as int, h);
        }
        Vector3 {
            x: ((value1.x * num6 + value2.x * num5) + tangent1.x * num4) + tangent2.x * num3,
            y: ((value1.y * num6 + value2.y * num5) + tangent1.y * num4) + tangent2.y * num3,
            z: ((value1.z * num6 + value2.z * num5) + tangent1.z * num4) + tangent2.z * num3,
        }
    }

    /// The point `position` carried by the affine transform `matrix`:
    /// positions pick up the translation row.
    pub fn transform(position: Vector3, matrix: Matrix) -> (r: Vector3)
        requires
            position@.bounded(),
            matrix@.bounded(),
        ensures
            r@ == position@.transform(matrix@),
    {
        proof {
            let l: int = COORD_LIMIT as int;
            lemma_mul_bound(position.x as int, l, matrix.m11 as int, l);
            lemma_mul_bound(position.y as int, l, matrix.m21 as int, l);
            lemma_mul_bound(position.z as int, l, matrix.m31 as int, l);
            lemma_mul_bound(position.x as int, l, matrix.m12 as int, l);
            lemma_mul_bound(position.y as int, l, matrix.m22 as int, l);
            lemma_mul_bound(position.z as int, l, matrix.m32 as int, l);
            lemma_mul_bound(position.x as int, l, matrix.m13 as int, l);
            lemma_mul_bound(position.y as int, l, matrix.m23 as int, l);
            lemma_mul_bound(position.z as int, l, matrix.m33 as int, l);
        }
        Vector3 {
            x: ((position.x * matrix.m11 + position.y * matrix.m21) + position.z * matrix.m31)
                + matrix.m41,
            y: ((position.x * matrix.m12 + position.y * matrix.m22) + position.z * matrix.m32)
                + matrix.m42,
            z: ((position.x * matrix.m13 + position.y * matrix.m23) + position.z * matrix.m33)
                + matrix.m43,
        }
    }

    /// The direction `normal` carried by the transform `matrix`:
    /// directions ignore the translation row.
    pub fn transform_normal(normal: Vector3, matrix: Matrix) -> (r: Vector3)
        requires
            normal@.bounded(),
            matrix@.bounded(),
        ensures
            r@ == normal@.transform_normal(matrix@),
    {
        proof {
            let l: int = COORD_LIMIT as int;
            lemma_mul_bound(normal.x as int, l, matrix.m11 as int, l);
            lemma_mul_bound(normal.y as int, l, matrix.m21 as int, l);
            lemma_mul_bound(normal.z as int, l, matrix.m31 as int, l);
            lemma_mul_bound(normal.x as int, l, matrix.m12 as int, l);
            lemma_mul_bound(normal.y as int, l, matrix.m22 as int, l);
            lemma_mul_bound(normal.z as int, l, matrix.m32 as int, l);
            lemma_mul_bound(normal.x as int, l, matrix.m13 as int, l);
            lemma_mul_bound(normal.y as int, l, matrix.m23 as int, l);
            lemma_mul_bound(normal.z as int, l, matrix.m33 as int, l);
        }
        Vector3 {
            x: (normal.x * matrix.m11 + normal.y * matrix.m21) + normal.z * matrix.m31,
            y: (normal.x * matrix.m12 + normal.y * matrix.m22) + normal.z * matrix.m32,
            z: (normal.x * matrix.m13 + normal.y * matrix.m23) + normal.z * matrix.m33,
        }
    }

    /// The vector rotated by the unit quaternion `rotation`.
    pub fn transform_quaternion(value: Vector3, rotation: Quaternion) -> (r: Vector3)
        requires
            value@.bounded(),
            rotation@.bounded(),
        ensures
            r@ == value@.transform_quaternion(rotation@),
    {
        let num12 = rotation.x + rotation.x;
        let num2 = rotation.y + rotation.y;
        let num = rotation.z + rotation.z;
        proof {
            let l: int = COORD_LIMIT as int;
            lemma_mul_bound(rotation.w as int, l, num12 as int, 2 * l);
            lemma_mul_bound(rotation.w as int, l, num2 as int, 2 * l);
            lemma_mul_bound(rotation.w as int, l, num as int, 2 * l);
            lemma_mul_bound(rotation.x as int, l, num12 as int, 2 * l);
            lemma_mul_bound(rotation.x as int, l, num2 as int, 2 * l);
            lemma_mul_bound(rotation.x as int, l, num as int, 2 * l);
            lemma_mul_bound(rotation.y as int, l, num2 as int, 2 * l);
            lemma_mul_bound(rotation.y as int, l, num as int, 2 * l);
            lemma_mul_bound(rotation.z as int, l, num as int, 2 * l);
        }
        let num11 = rotation.w * num12;
        let num10 = rotation.w * num2;
        let num9 = rotation.w * num;
        let num8 = rotation.x * num12;
        let num7 = rotation.x * num2;
        let num6 = rotation.x * num;
        let num5 = rotation.y * num2;
        let num4 = rotation.y * num;
        let num3 = rotation.z * num;
        proof {
            let l: int = COORD_LIMIT as int;
            let h: int = 1 + 4 * l * l;
            lemma_mul_bound(value.x as int, l, (1 - num5 as int) - num3 as int, h);
            lemma_mul_bound(value.y as int, l, num7 as int - num9 as int, h);
            lemma_mul_bound(value.z as int, l, num6 as int + num10 as int, h);
            lemma_mul_bound(value.x as int, l, num7 as int + num9 as int, h);
            lemma_mul_bound(value.y as int, l, (1 - num8 as int) - num3 as int, h);
            lemma_mul_bound(value.z as int, l, num4 as int - num11 as int, h);
            lemma_mul_bound(value.x as int, l, num6 as int - num10 as int, h);
            lemma_mul_bound(value.y as int, l, num4 as int + num11 as int, h);
            lemma_mul_bound(value.z as int, l, (1 - num8 as int) - num5 as int, h);
        }
        Vector3 {
            x: (value.x * ((1 - num5) - num3) + value.y * (num7 - num9)) + value.z * (num6
                + num10),
            y: (value.x * (num7 + num9) + value.y * ((1 - num8) - num3)) + value.z * (num4
                - num11),
            z: (value.x * (num6 - num10) + value.y * (num4 + num11)) + value.z * ((1 - num8)
                - num5),
        }
    }
}

/// The doubled Catmull-Rom combination is even for every integer input:
/// the spline itself therefore takes exact integer values on integer data.
pub proof fn lemma_catmull_twice_even(p1: int, p2: int, p3: int, p4: int, t: int)
    ensures
        Vec3::catmull_twice(p1, p2, p3, p4, t) % 2 == 0,
{
    let a = -p1 + p3;
    let b = (2 * p1 - 5 * p2 + 4 * p3) - p4;
    let c = (-p1 + 3 * p2 - 3 * p3) + p4;
    let u = t / 2;
    vstd::arithmetic::div_mod::lemma_fundamental_div_mod(t, 2);
    vstd::arithmetic::div_mod::lemma_mod_bound(t, 2);
    if t % 2 == 0 {
        let k = p2 + a * u + b * (2 * u * u) + c * (4 * (u * (u * u)));
        assert(Vec3::catmull_twice(p1, p2, p3, p4, t) == 2 * k) by (nonlinear_arith)
            requires
                t == 2 * u,
                a == -p1 + p3,
                b == (2 * p1 - 5 * p2 + 4 * p3) - p4,
                c == (-p1 + 3 * p2 - 3 * p3) + p4,
                k == p2 + a * u + b * (2 * u * u) + c * (4 * (u * (u * u)));
    } else {
        let k = p3 + a * u + b * (2 * u * u + 2 * u) + c * (4 * (u * (u * u)) + 6 * (u * u) + 3
            * u);
        assert(Vec3::catmull_twice(p1, p2, p3, p4, t) == 2 * k) by (nonlinear_arith)
            requires
                t == 2 * u + 1,
                a == -p1 + p3,
                b == (2 * p1 - 5 * p2 + 4 * p3) - p4,
                c == (-p1 + 3 * p2 - 3 * p3) + p4,
                k == p3 + a * u + b * (2 * u * u + 2 * u) + c * (4 * (u * (u * u)) + 6 * (u * u)
                    + 3 * u);
    }
}

/// The dot product is commutative.
pub proof fn lemma_dot_commutative(a: Vec3, b: Vec3)
    ensures
        a.dot(b) == b.dot(a),
{
    assert(a.x * b.x + a.y * b.y + a.z * b.z == b.x * a.x + b.y * a.y + b.z * a.z)
        by (nonlinear_arith);
}

/// The cross product is anti-commutative: swapping the arguments negates it.
pub proof fn lemma_cross_anticommutative(a: Vec3, b: Vec3)
    ensures
        a.cross(b) == b.cross(a).neg(),
{
    assert(a.y * b.z - a.z * b.y == -(b.y * a.z - b.z * a.y)) by (nonlinear_arith);
    assert(a.z * b.x - a.x * b.z == -(b.z * a.x - b.x * a.z)) by (nonlinear_arith);
    assert(a.x * b.y - a.y * b.x == -(b.x * a.y - b.y * a.x)) by (nonlinear_arith);
}

/// A vector crossed with itself vanishes.
pub proof fn lemma_cross_self(a: Vec3)
    ensures
        a.cross(a) == (Vec3 { x: 0, y: 0, z: 0 }),
{
    assert(a.y * a.z - a.z * a.y == 0) by (nonlinear_arith);
    assert(a.z * a.x - a.x * a.z == 0) by (nonlinear_arith);
    assert(a.x * a.y - a.y * a.x == 0) by (nonlinear_arith);
}

/// The cross product is orthogonal to both of its arguments.
pub proof fn lemma_cross_orthogonal(a: Vec3, b: Vec3)
    ensures
        a.cross(b).dot(a) == 0,
        a.cross(b).dot(b) == 0,
{
    assert((a.y * b.z - a.z * b.y) * a.x + (a.z * b.x - a.x * b.z) * a.y + (a.x * b.y - a.y
        * b.x) * a.z == 0) by (nonlinear_arith);
    assert((a.y * b.z - a.z * b.y) * b.x + (a.z * b.x - a.x * b.z) * b.y + (a.x * b.y - a.y
        * b.x) * b.z == 0) by (nonlinear_arith);
}

/// Interpolating by zero returns the first endpoint exactly.
pub proof fn lemma_lerp_zero(a: Vec3, b: Vec3)
    ensures
        a.lerp(b, 0) == a,
{
}

/// Interpolating by one returns the second endpoint exactly.
pub proof fn lemma_lerp_one(a: Vec3, b: Vec3)
    ensures
        a.lerp(b, 1) == b,
{
}

/// Rotating a vector by a quaternion agrees exactly with carrying it
/// through the quaternion's rotation matrix as a direction.
pub proof fn lemma_transform_quaternion_matches_matrix(v: Vec3, q: Quat)
    ensures
        v.transform_quaternion(q) == v.transform_normal(Mat4::from_quaternion(q)),
{
    let m = Mat4::from_quaternion(q);
    assert((v.x * m.m11 + v.y * m.m21) + v.z * m.m31 == (v.x * ((1 - q.y * (q.y + q.y)) - q.z * (
    q.z + q.z)) + v.y * (q.x * (q.y + q.y) - q.w * (q.z + q.z))) + v.z * (q.x * (q.z + q.z) + q.w
        * (q.y + q.y))) by (nonlinear_arith)
        requires
            m == Mat4::from_quaternion(q),
    ;
    assert((v.x * m.m12 + v.y * m.m22) + v.z * m.m32 == (v.x * (q.x * (q.y + q.y) + q.w * (q.z
        + q.z)) + v.y * ((1 - q.x * (q.x + q.x)) - q.z * (q.z + q.z))) + v.z * (q.y * (q.z + q.z)
        - q.w * (q.x + q.x))) by (nonlinear_arith)
        requires
            m == Mat4::from_quaternion(q),
    ;
    assert((v.x * m.m13 + v.y * m.m23) + v.z * m.m33 == (v.x * (q.x * (q.z + q.z) - q.w * (q.y
        + q.y)) + v.y * (q.y * (q.z + q.z) + q.w * (q.x + q.x))) + v.z * ((1 - q.x * (q.x + q.x))
        - q.y * (q.y + q.y))) by (nonlinear_arith)
        requires
            m == Mat4::from_quaternion(q),
    ;
}

/// Rotating by a quaternion preserves the squared length whenever the
/// quaternion is unit.
pub proof fn lemma_transform_quaternion_length(v: Vec3, q: Quat)
    requires
        q.is_unit(),
    ensures
        v.transform_quaternion(q).len_sq() == v.len_sq(),
{
    let r = v.transform_quaternion(q);
    assert(r.len_sq() == v.len_sq()) by (nonlinear_arith)
        requires
            q.x * q.x + q.y * q.y + q.z * q.z + q.w * q.w == 1,
            r == v.transform_quaternion(q),
    {
        assert(r.x == (v.x * ((1 - q.y * (q.y + q.y)) - q.z * (q.z + q.z)) + v.y * (q.x * (q.y
            + q.y) - q.w * (q.z + q.z))) + v.z * (q.x * (q.z + q.z) + q.w * (q.y + q.y)));
    }
}

} // verus!
