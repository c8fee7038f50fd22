//! Rotation quaternions over exact integer components.
use vstd::prelude::*;

use crate::{in_range, lemma_mul_bound, COORD_LIMIT};

verus! {

/// Mathematical model of a quaternion `x*i + y*j + z*k + w` over unbounded
/// integers.
pub struct Quat {
    pub x: int,
    pub y: int,
    pub z: int,
    pub w: int,
}

impl Quat {
    /// Every component lies within the range the executable operations accept.
    pub open spec fn bounded(self) -> bool {
        in_range(self.x) && in_range(self.y) && in_range(self.z) && in_range(self.w)
    }

    /// The square of the quaternion's magnitude.
    pub open spec fn len_sq(self) -> int {
        self.x * self.x + self.y * self.y + self.z * self.z + self.w * self.w
    }

    /// A quaternion of magnitude one; only these describe rotations.
    pub open spec fn is_unit(self) -> bool {
        self.len_sq() == 1
    }

    pub open spec fn identity() -> Quat {
        Quat { x: 0, y: 0, z: 0, w: 1 }
    }

    pub open spec fn conjugate(self) -> Quat {
        Quat { x: -self.x, y: -self.y, z: -self.z, w: self.w }
    }

    /// The Hamilton product: composing the rotation `rhs` with `self`.
    pub open spec fn mul(self, rhs: Quat) -> Quat {
        Quat {
            x: self.w * rhs.x + self.x * rhs.w + self.y * rhs.z - self.z * rhs.y,
            y: self.w * rhs.y - self.x * rhs.z + self.y * rhs.w + self.z * rhs.x,
            z: self.w * rhs.z + self.x * rhs.y - self.y * rhs.x + self.z * rhs.w,
            w: self.w * rhs.w - self.x * rhs.x - self.y * rhs.y - self.z * rhs.z,
        }
    }
}

/// A quaternion with exact `i128` components.
#[derive(Clone, Copy, Debug, PartialEq, Eq, Structural)]
pub struct Quaternion {
    pub x: i128,
    pub y: i128,
    pub z: i128,
    pub w: i128,
}

impl View for Quaternion {
    type V = Quat;

    open spec fn view(&self) -> Quat {
        Quat { x: self.x as int, y: self.y as int, z: self.z as int, w: self.w as int }
    }
}

impl Quaternion {
    pub fn new(x: i128, y: i128, z: i128, w: i128) -> (r: Quaternion)
        ensures
            r@ == (Quat { x: x as int, y: y as int, z: z as int, w: w as int }),
    {
        Quaternion { x, y, z, w }
    }

    pub fn identity() -> (r: Quaternion)
        ensures
            r@ == Quat::identity(),
    {
        Quaternion { x: 0, y: 0, z: 0, w: 1 }
    }

    /// The rotation inverse to `self`, whenever `self` is unit.
    pub fn conjugate(self) -> (r: Quaternion)
        requires
            self@.bounded(),
        ensures
            r@ == self@.conjugate(),
    {
        Quaternion { x: -self.x, y: -self.y, z: -self.z, w: self.w }
    }

    pub fn length_squared(self) -> (r: i128)
        requires
            self@.bounded(),
        ensures
            r == self@.len_sq(),
    {
        proof {
            let l: int = COORD_LIMIT as int;
            lemma_mul_bound(self.x as int, l, self.x as int, l);
            lemma_mul_bound(self.y as int, l, self.y as int, l);
            lemma_mul_bound(self.z as int, l, self.z as int, l);
            lemma_mul_bound(self.w as int, l, self.w as int, l);
        }
        self.x * self.x + self.y * self.y + self.z * self.z + self.w * self.w
    }

    /// The Hamilton product: the combined rotation that applies `rhs`
    /// first and `self` second (for unit quaternions).
    pub fn mul(self, rhs: Quaternion) -> (r: Quaternion)
        requires
            self@.bounded(),
            rhs@.bounded(),
        ensures
            r@ == self@.mul(rhs@),
    {
        proof {
            let l: int = COORD_LIMIT as int;
            lemma_mul_bound(self.w as int, l, rhs.x as int, l);
            lemma_mul_bound(self.x as int, l, rhs.w as int, l);
            lemma_mul_bound(self.y as int, l, rhs.z as int, l);
            lemma_mul_bound(self.z as int, l, rhs.y as int, l);
            lemma_mul_bound(self.w as int, l, rhs.y as int, l);
            lemma_mul_bound(self.x as int, l, rhs.z as int, l);
            lemma_mul_bound(self.y as int, l, rhs.w as int, l);
            lemma_mul_bound(self.z as int, l, rhs.x as int, l);
            lemma_mul_bound(self.w as int, l, rhs.z as int, l);
            lemma_mul_bound(self.x as int, l, rhs.y as int, l);
            lemma_mul_bound(self.y as int, l, rhs.x as int, l);
            lemma_mul_bound(self.z as int, l, rhs.w as int, l);
            lemma_mul_bound(self.w as int, l, rhs.w as int, l);
            lemma_mul_bound(self.x as int, l, rhs.x as int, l);
            lemma_mul_bound(self.y as int, l, rhs.y as int, l);
            lemma_mul_bound(self.z as int, l, rhs.z as int, l);
        }
        Quaternion {
            x: self.w * rhs.x + self.x * rhs.w + self.y * rhs.z - self.z * rhs.y,
            y: self.w * rhs.y - self.x * rhs.z + self.y * rhs.w + self.z * rhs.x,
            z: self.w * rhs.z + self.x * rhs.y - self.y * rhs.x + self.z * rhs.w,
            w: self.w * rhs.w - self.x * rhs.x - self.y * rhs.y - self.z * rhs.z,
        }
    }
}

/// A quaternion times its conjugate collapses to a scalar: zero vector part
/// and the squared magnitude as the real part. For a unit quaternion the
/// conjugate is therefore the exact inverse.
pub proof fn lemma_mul_conjugate(q: Quat)
    ensures
        q.mul(q.conjugate()) == (Quat { x: 0, y: 0, z: 0, w: q.len_sq() }),
        q.conjugate().mul(q) == (Quat { x: 0, y: 0, z: 0, w: q.len_sq() }),
        q.is_unit() ==> q.mul(q.conjugate()) == Quat::identity(),
        q.is_unit() ==> q.conjugate().mul(q) == Quat::identity(),
{
    let x = q.x;
    let y = q.y;
    let z = q.z;
    let w = q.w;
    assert(w * (-x) + x * w + y * (-z) - z * (-y) == 0) by (nonlinear_arith);
    assert(w * (-y) - x * (-z) + y * w + z * (-x) == 0) by (nonlinear_arith);
    assert(w * (-z) + x * (-y) - y * (-x) + z * w == 0) by (nonlinear_arith);
    assert(w * w - x * (-x) - y * (-y) - z * (-z) == x * x + y * y + z * z + w * w)
        by (nonlinear_arith);
    assert(w * x + (-x) * w + (-y) * z - (-z) * y == 0) by (nonlinear_arith);
    assert(w * y - (-x) * z + (-y) * w + (-z) * x == 0) by (nonlinear_arith);
    assert(w * z + (-x) * y - (-y) * x + (-z) * w == 0) by (nonlinear_arith);
    assert(w * w - (-x) * x - (-y) * y - (-z) * z == x * x + y * y + z * z + w * w)
        by (nonlinear_arith);
}

/// The identity quaternion is neutral for the Hamilton product.
pub proof fn lemma_mul_identity(q: Quat)
    ensures
        q.mul(Quat::identity()) == q,
        Quat::identity().mul(q) == q,
{
    assert(q.w * 0 + q.x * 1 + q.y * 0 - q.z * 0 == q.x) by (nonlinear_arith);
    assert(q.w * 0 - q.x * 0 + q.y * 1 + q.z * 0 == q.y) by (nonlinear_arith);
    assert(q.w * 0 + q.x * 0 - q.y * 0 + q.z * 1 == q.z) by (nonlinear_arith);
    assert(q.w * 1 - q.x * 0 - q.y * 0 - q.z * 0 == q.w) by (nonlinear_arith);
    assert(1 * q.x + 0 * q.w + 0 * q.z - 0 * q.y == q.x) by (nonlinear_arith);
    assert(1 * q.y - 0 * q.z + 0 * q.w + 0 * q.x == q.y) by (nonlinear_arith);
    assert(1 * q.z + 0 * q.y - 0 * q.x + 0 * q.w == q.z) by (nonlinear_arith);
    assert(1 * q.w - 0 * q.x - 0 * q.y - 0 * q.z == q.w) by (nonlinear_arith);
}

} // verus!
