//! Two-component vectors over exact integer coordinates.
use vstd::prelude::*;

use crate::{in_range, lemma_mul_bound, COORD_LIMIT};

verus! {

/// Mathematical model of a two-component vector: a pair of unbounded
/// integers. All contracts and laws are stated over this type.
pub struct Vec2 {
    pub x: int,
    pub y: int,
}

impl Vec2 {
    /// Both coordinates lie within the range the executable operations accept.
    pub open spec fn bounded(self) -> bool {
        in_range(self.x) && in_range(self.y)
    }

    pub open spec fn add(self, rhs: Vec2) -> Vec2 {
        Vec2 { x: self.x + rhs.x, y: self.y + rhs.y }
    }

    pub open spec fn sub(self, rhs: Vec2) -> Vec2 {
        Vec2 { x: self.x - rhs.x, y: self.y - rhs.y }
    }

    /// Componentwise product.
    pub open spec fn mul(self, rhs: Vec2) -> Vec2 {
        Vec2 { x: self.x * rhs.x, y: self.y * rhs.y }
    }

    pub open spec fn scale(self, k: int) -> Vec2 {
        Vec2 { x: self.x * k, y: self.y * k }
    }

    pub open spec fn dot(self, rhs: Vec2) -> int {
        self.x * rhs.x + self.y * rhs.y
    }

    pub open spec fn len_sq(self) -> int {
        self.x * self.x + self.y * self.y
    }

    /// Mirror of a vector about a normal direction: the vector minus twice
    /// its projection onto the normal.
    pub open spec fn reflect(self, normal: Vec2) -> Vec2 {
        Vec2 {
            x: self.x - 2 * self.dot(normal) * normal.x,
            y: self.y - 2 * self.dot(normal) * normal.y,
        }
    }

    pub open spec fn min(self, rhs: Vec2) -> Vec2 {
        Vec2 {
            x: if self.x < rhs.x { self.x } else { rhs.x },
            y: if self.y < rhs.y { self.y } else { rhs.y },
        }
    }

    pub open spec fn max(self, rhs: Vec2) -> Vec2 {
        Vec2 {
            x: if self.x > rhs.x { self.x } else { rhs.x },
            y: if self.y > rhs.y { self.y } else { rhs.y },
        }
    }

    /// Caps to `hi` first, then floors to `lo`, componentwise; where a floor
    /// exceeds its cap the floor wins.
    pub open spec fn clamp(self, lo: Vec2, hi: Vec2) -> Vec2 {
        self.min(hi).max(lo)
    }

    /// Unclamped linear interpolation `self + (rhs - self) * t`.
    pub open spec fn lerp(self, rhs: Vec2, t: int) -> Vec2 {
        self.add(rhs.sub(self).scale(t))
    }

    /// The point with barycentric coordinates `(a1, a2)` in the triangle
    /// `(self, v2, v3)`.
    pub open spec fn barycentric(self, v2: Vec2, v3: Vec2, a1: int, a2: int) -> Vec2 {
        Vec2 {
            x: self.x + a1 * (v2.x - self.x) + a2 * (v3.x - self.x),
            y: self.y + a1 * (v2.y - self.y) + a2 * (v3.y - self.y),
        }
    }
}

/// A two-component vector with exact `i128` coordinates.
#[derive(Clone, Copy, Debug, PartialEq, Eq, Structural)]
pub struct Vector2 {
    pub x: i128,
    pub y: i128,
}

impl View for Vector2 {
    type V = Vec2;

    open spec fn view(&self) -> Vec2 {
        Vec2 { x: self.x as int, y: self.y as int }
    }
}

impl Vector2 {
    pub fn new(x: i128, y: i128) -> (r: Vector2)
        ensures
            r@ == (Vec2 { x: x as int, y: y as int }),
    {
        Vector2 { x, y }
    }

    pub fn zero() -> (r: Vector2)
        ensures
            r@ == (Vec2 { x: 0, y: 0 }),
    {
        Vector2 { x: 0, y: 0 }
    }

    pub fn one() -> (r: Vector2)
        ensures
            r@ == (Vec2 { x: 1, y: 1 }),
    {
        Vector2 { x: 1, y: 1 }
    }

    pub fn up() -> (r: Vector2)
        ensures
            r@ == (Vec2 { x: 0, y: -1 }),
    {
        Vector2 { x: 0, y: -1 }
    }

    pub fn down() -> (r: Vector2)
        ensures
            r@ == (Vec2 { x: 0, y: 1 }),
    {
        Vector2 { x: 0, y: 1 }
    }

    pub fn left() -> (r: Vector2)
        ensures
            r@ == (Vec2 { x: -1, y: 0 }),
    {
        Vector2 { x: -1, y: 0 }
    }

    pub fn right() -> (r: Vector2)
        ensures
            r@ == (Vec2 { x: 1, y: 0 }),
    {
        Vector2 { x: 1, y: 0 }
    }

    pub fn add(self, rhs: Vector2) -> (r: Vector2)
        requires
            self@.bounded(),
            rhs@.bounded(),
        ensures
            r@ == self@.add(rhs@),
    {
        Vector2 { x: self.x + rhs.x, y: self.y + rhs.y }
    }

    pub fn sub(self, rhs: Vector2) -> (r: Vector2)
        requires
            self@.bounded(),
            rhs@.bounded(),
        ensures
            r@ == self@.sub(rhs@),
    {
        Vector2 { x: self.x - rhs.x, y: self.y - rhs.y }
    }

    /// Componentwise product.
    pub fn mul(self, rhs: Vector2) -> (r: Vector2)
        requires
            self@.bounded(),
            rhs@.bounded(),
        ensures
            r@ == self@.mul(rhs@),
    {
        proof {
            lemma_mul_bound(self.x as int, COORD_LIMIT as int, rhs.x as int, COORD_LIMIT as int);
            lemma_mul_bound(self.y as int, COORD_LIMIT as int, rhs.y as int, COORD_LIMIT as int);
        }
        Vector2 { x: self.x * rhs.x, y: self.y * rhs.y }
    }

    /// Scalar product.
    pub fn mul_scalar(self, rhs: i128) -> (r: Vector2)
        requires
            self@.bounded(),
            in_range(rhs as int),
        ensures
            r@ == self@.scale(rhs as int),
    {
        proof {
            lemma_mul_bound(self.x as int, COORD_LIMIT as int, rhs as int, COORD_LIMIT as int);
            lemma_mul_bound(self.y as int, COORD_LIMIT as int, rhs as int, COORD_LIMIT as int);
        }
        Vector2 { x: self.x * rhs, y: self.y * rhs }
    }

    pub fn length_squared(self) -> (r: i128)
        requires
            self@.bounded(),
        ensures
            r == self@.len_sq(),
    {
        proof {
            lemma_mul_bound(self.x as int, COORD_LIMIT as int, self.x as int, COORD_LIMIT as int);
            lemma_mul_bound(self.y as int, COORD_LIMIT as int, self.y as int, COORD_LIMIT as int);
        }
        self.x * self.x + self.y * self.y
    }

    pub fn dot(value1: Vector2, value2: Vector2) -> (r: i128)
        requires
            value1@.bounded(),
            value2@.bounded(),
        ensures
            r == value1@.dot(value2@),
    {
        proof {
            lemma_mul_bound(value1.x as int, COORD_LIMIT as int, value2.x as int, COORD_LIMIT as int);
            lemma_mul_bound(value1.y as int, COORD_LIMIT as int, value2.y as int, COORD_LIMIT as int);
        }
        value1.x * value2.x + value1.y * value2.y
    }

    pub fn reflect(vector: Vector2, normal: Vector2) -> (r: Vector2)
        requires
            vector@.bounded(),
            normal@.bounded(),
        ensures
            r@ == vector@.reflect(normal@),
    {
        proof {
            lemma_mul_bound(vector.x as int, COORD_LIMIT as int, normal.x as int, COORD_LIMIT as int);
            lemma_mul_bound(vector.y as int, COORD_LIMIT as int, normal.y as int, COORD_LIMIT as int);
        }
        let num = vector.x * normal.x + vector.y * normal.y;
        proof {
            let l: int = COORD_LIMIT as int;
            lemma_mul_bound(2 * (num as int), 4 * l * l, normal.x as int, l);
            lemma_mul_bound(2 * (num as int), 4 * l * l, normal.y as int, l);
        }
        Vector2 { x: vector.x - 2 * num * normal.x, y: vector.y - 2 * num * normal.y }
    }

    pub fn min(value1: Vector2, value2: Vector2) -> (r: Vector2)
        ensures
            r@ == value1@.min(value2@),
    {
        Vector2 {
            x: if value1.x < value2.x { value1.x } else { value2.x },
            y: if value1.y < value2.y { value1.y } else { value2.y },
        }
    }

    pub fn max(value1: Vector2, value2: Vector2) -> (r: Vector2)
        ensures
            r@ == value1@.max(value2@),
    {
        Vector2 {
            x: if value1.x > value2.x { value1.x } else { value2.x },
            y: if value1.y > value2.y { value1.y } else { value2.y },
        }
    }

    /// Caps to `max` first, then floors to `min`, componentwise, so the
    /// floor wins where the caller passes a floor above the cap.
    pub fn clamp(value1: Vector2, min: Vector2, max: Vector2) -> (r: Vector2)
        ensures
            r@ == value1@.clamp(min@, max@),
    {
        let mut x = value1.x;
        x = if x > max.x { max.x } else { x };
        x = if x < min.x { min.x } else { x };
        let mut y = value1.y;
        y = if y > max.y { max.y } else { y };
        y = if y < min.y { min.y } else { y };
        Vector2 { x, y }
    }

    /// Unclamped linear interpolation: a whole `amount` of zero returns
    /// `value1`, one returns `value2`, anything else extrapolates.
    pub fn lerp(value1: Vector2, value2: Vector2, amount: i128) -> (r: Vector2)
        requires
            value1@.bounded(),
            value2@.bounded(),
            in_range(amount as int),
        ensures
            r@ == value1@.lerp(value2@, amount as int),
    {
        proof {
            let l: int = COORD_LIMIT as int;
            lemma_mul_bound(value2.x as int - value1.x as int, 2 * l, amount as int, l);
            lemma_mul_bound(value2.y as int - value1.y as int, 2 * l, amount as int, l);
        }
        Vector2 {
            x: value1.x + (value2.x - value1.x) * amount,
            y: value1.y + (value2.y - value1.y) * amount,
        }
    }

    pub fn barycentric(value1: Vector2, value2: Vector2, value3: Vector2, amount1: i128, amount2: i128) -> (r: Vector2)
        requires
            value1@.bounded(),
            value2@.bounded(),
            value3@.bounded(),
            in_range(amount1 as int),
            in_range(amount2 as int),
        ensures
            r@ == value1@.barycentric(value2@, value3@, amount1 as int, amount2 as int),
    {
        proof {
            let l: int = COORD_LIMIT as int;
            lemma_mul_bound(amount1 as int, l, value2.x as int - value1.x as int, 2 * l);
            lemma_mul_bound(amount2 as int, l, value3.x as int - value1.x as int, 2 * l);
            lemma_mul_bound(amount1 as int, l, value2.y as int - value1.y as int, 2 * l);
            lemma_mul_bound(amount2 as int, l, value3.y as int - value1.y as int, 2 * l);
        }
        Vector2 {
            x: value1.x + amount1 * (value2.x - value1.x) + amount2 * (value3.x - value1.x),
            y: value1.y + amount1 * (value2.y - value1.y) + amount2 * (value3.y - value1.y),
        }
    }
}

/// The dot product is commutative.
pub proof fn lemma_dot_commutative(a: Vec2, b: Vec2)
    ensures
        a.dot(b) == b.dot(a),
{
    assert(a.x * b.x + a.y * b.y == b.x * a.x + b.y * a.y) by (nonlinear_arith);
}

/// Interpolating by zero returns the first endpoint exactly.
pub proof fn lemma_lerp_zero(a: Vec2, b: Vec2)
    ensures
        a.lerp(b, 0) == a,
{
}

/// Interpolating by one returns the second endpoint exactly.
pub proof fn lemma_lerp_one(a: Vec2, b: Vec2)
    ensures
        a.lerp(b, 1) == b,
{
}

} // verus!
