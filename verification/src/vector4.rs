//! Four-component homogeneous vectors over exact integer coordinates.
use vstd::prelude::*;

use crate::{in_range, lemma_mul_bound, COORD_LIMIT};

verus! {

/// Mathematical model of a four-component vector; `w` carries the
/// homogeneous weight in projective arithmetic.
pub struct Vec4 {
    pub x: int,
    pub y: int,
    pub z: int,
    pub w: int,
}

impl Vec4 {
    /// Every coordinate lies within the range the executable operations accept.
    pub open spec fn bounded(self) -> bool {
        in_range(self.x) && in_range(self.y) && in_range(self.z) && in_range(self.w)
    }

    pub open spec fn add(self, rhs: Vec4) -> Vec4 {
        Vec4 { x: self.x + rhs.x, y: self.y + rhs.y, z: self.z + rhs.z, w: self.w + rhs.w }
    }

    pub open spec fn sub(self, rhs: Vec4) -> Vec4 {
        Vec4 { x: self.x - rhs.x, y: self.y - rhs.y, z: self.z - rhs.z, w: self.w - rhs.w }
    }

    pub open spec fn neg(self) -> Vec4 {
        Vec4 { x: -self.x, y: -self.y, z: -self.z, w: -self.w }
    }

    pub open spec fn dot(self, rhs: Vec4) -> int {
        self.x * rhs.x + self.y * rhs.y + self.z * rhs.z + self.w * rhs.w
    }

    /// Unclamped linear interpolation `self + (rhs - self) * t`.
    pub open spec fn lerp(self, rhs: Vec4, t: int) -> Vec4 {
        Vec4 {
            x: self.x + (rhs.x - self.x) * t,
            y: self.y + (rhs.y - self.y) * t,
            z: self.z + (rhs.z - self.z) * t,
            w: self.w + (rhs.w - self.w) * t,
        }
    }
}

/// A four-component vector with exact `i128` coordinates.
#[derive(Clone, Copy, Debug, PartialEq, Eq, Structural)]
pub struct Vector4 {
    pub x: i128,
    pub y: i128,
    pub z: i128,
    pub w: i128,
}

impl View for Vector4 {
    type V = Vec4;

    open spec fn view(&self) -> Vec4 {
        Vec4 { x: self.x as int, y: self.y as int, z: self.z as int, w: self.w as int }
    }
}

impl Vector4 {
    pub fn new(x: i128, y: i128, z: i128, w: i128) -> (r: Vector4)
        ensures
            r@ == (Vec4 { x: x as int, y: y as int, z: z as int, w: w as int }),
    {
        Vector4 { x, y, z, w }
    }

    pub fn zero() -> (r: Vector4)
        ensures
            r@ == (Vec4 { x: 0, y: 0, z: 0, w: 0 }),
    {
        Vector4 { x: 0, y: 0, z: 0, w: 0 }
    }

    pub fn one() -> (r: Vector4)
        ensures
            r@ == (Vec4 { x: 1, y: 1, z: 1, w: 1 }),
    {
        Vector4 { x: 1, y: 1, z: 1, w: 1 }
    }

    pub fn add(self, rhs: Vector4) -> (r: Vector4)
        requires
            self@.bounded(),
            rhs@.bounded(),
        ensures
            r@ == self@.add(rhs@),
    {
        Vector4 { x: self.x + rhs.x, y: self.y + rhs.y, z: self.z + rhs.z, w: self.w + rhs.w }
    }

    pub fn sub(self, rhs: Vector4) -> (r: Vector4)
        requires
            self@.bounded(),
            rhs@.bounded(),
        ensures
            r@ == self@.sub(rhs@),
    {
        Vector4 { x: self.x - rhs.x, y: self.y - rhs.y, z: self.z - rhs.z, w: self.w - rhs.w }
    }

    pub fn negate(value: Vector4) -> (r: Vector4)
        requires
            value@.bounded(),
        ensures
            r@ == value@.neg(),
    {
        Vector4 { x: -value.x, y: -value.y, z: -value.z, w: -value.w }
    }

    pub fn dot(value1: Vector4, value2: Vector4) -> (r: i128)
        requires
            value1@.bounded(),
            value2@.bounded(),
        ensures
            r == value1@.dot(value2@),
    {
        proof {
            let l: int = COORD_LIMIT as int;
            lemma_mul_bound(value1.x as int, l, value2.x as int, l);
            lemma_mul_bound(value1.y as int, l, value2.y as int, l);
            lemma_mul_bound(value1.z as int, l, value2.z as int, l);
            lemma_mul_bound(value1.w as int, l, value2.w as int, l);
        }
        value1.x * value2.x + value1.y * value2.y + value1.z * value2.z + value1.w * value2.w
    }

    /// Unclamped linear interpolation: an `amount` of zero returns
    /// `value1`, one returns `value2`, anything else extrapolates.
    pub fn lerp(value1: Vector4, value2: Vector4, amount: i128) -> (r: Vector4)
        requires
            value1@.bounded(),
            value2@.bounded(),
            in_range(amount as int),
        ensures
            r@ == value1@.lerp(value2@, amount as int),
    {
        proof {
            let l: int = COORD_LIMIT as int;
            lemma_mul_bound(value2.x as int - value1.x as int, 2 * l, amount as int, l);
            lemma_mul_bound(value2.y as int - value1.y as int, 2 * l, amount as int, l);
            lemma_mul_bound(value2.z as int - value1.z as int, 2 * l, amount as int, l);
            lemma_mul_bound(value2.w as int - value1.w as int, 2 * l, amount as int, l);
        }
        Vector4 {
            x: value1.x + (value2.x - value1.x) * amount,
            y: value1.y + (value2.y - value1.y) * amount,
            z: value1.z + (value2.z - value1.z) * amount,
            w: value1.w + (value2.w - value1.w) * amount,
        }
    }
}

/// The dot product is commutative.
pub proof fn lemma_dot_commutative(a: Vec4, b: Vec4)
    ensures
        a.dot(b) == b.dot(a),
{
    assert(a.x * b.x + a.y * b.y + a.z * b.z + a.w * b.w == b.x * a.x + b.y * a.y + b.z * a.z
        + b.w * a.w) by (nonlinear_arith);
}

} // verus!
