//! Axis-aligned bounding boxes with exact integer corners.
use vstd::prelude::*;

use crate::bounding_sphere::BoundingSphere;
use crate::plane::Pln;
use crate::bounding_sphere::Sph;
use crate::vector3::Vec3;
use crate::vector3::Vector3;
use crate::{lemma_mul_bound, COORD_LIMIT};

verus! {

/// Mathematical model of an axis-aligned box: its least and greatest
/// corners over unbounded integers.
pub struct Box3 {
    pub min: Vec3,
    pub max: Vec3,
}

impl Box3 {
    /// Both corners lie within the range the executable operations accept.
    pub open spec fn bounded(self) -> bool {
        self.min.bounded() && self.max.bounded()
    }

    /// A box is well formed when its least corner is componentwise at most
    /// its greatest.
    pub open spec fn wf(self) -> bool {
        self.min.x <= self.max.x && self.min.y <= self.max.y && self.min.z <= self.max.z
    }

    /// A point is inside the box, boundary included.
    pub open spec fn contains_point(self, v: Vec3) -> bool {
        self.min.x <= v.x <= self.max.x && self.min.y <= v.y <= self.max.y && self.min.z <= v.z
            <= self.max.z
    }

    /// Two boxes meet, touching faces included.
    pub open spec fn intersects_box(self, o: Box3) -> bool {
        self.min.x <= o.max.x && o.min.x <= self.max.x && self.min.y <= o.max.y && o.min.y
            <= self.max.y && self.min.z <= o.max.z && o.min.z <= self.max.z
    }

    /// The corner of the box farthest along the direction `(a, b, c)`:
    /// for each axis, the greater corner when the component is positive,
    /// else the lesser.
    pub open spec fn support_toward(self, a: int, b: int, c: int) -> Vec3 {
        Vec3 {
            x: if a > 0 { self.max.x } else { self.min.x },
            y: if b > 0 { self.max.y } else { self.min.y },
            z: if c > 0 { self.max.z } else { self.min.z },
        }
    }

    /// A box and a sphere meet exactly when the point of the box closest
    /// to the center lies inside the sphere.
    pub open spec fn intersects_sphere(self, s: Sph) -> bool {
        s.center.clamp(self.min, self.max).dist_sq(s.center) <= s.radius * s.radius
    }
}

/// An axis-aligned bounding box with exact `i128` corners.
#[derive(Clone, Copy, Debug, PartialEq, Eq, Structural)]
pub struct BoundingBox {
    pub min: Vector3,
    pub max: Vector3,
}

impl View for BoundingBox {
    type V = Box3;

    open spec fn view(&self) -> Box3 {
        Box3 { min: self.min@, max: self.max@ }
    }
}

impl BoundingBox {
    pub fn new(min: Vector3, max: Vector3) -> (r: BoundingBox)
        requires
            min.x <= max.x,
            min.y <= max.y,
            min.z <= max.z,
        ensures
            r@ == (Box3 { min: min@, max: max@ }),
            r@.wf(),
    {
        BoundingBox { min, max }
    }

    /// The tightest box around a non-empty set of points: each corner
    /// coordinate bounds every point and is attained by one of them.
    pub fn from_points(points: &Vec<Vector3>) -> (r: BoundingBox)
        requires
            points@.len() >= 1,
        ensures
            r@.wf(),
            forall|i: int| 0 <= i < points@.len() ==> r@.contains_point(#[trigger] points@[i]@),
            exists|i: int| 0 <= i < points@.len() && r@.min.x == #[trigger] points@[i]@.x,
            exists|i: int| 0 <= i < points@.len() && r@.min.y == #[trigger] points@[i]@.y,
            exists|i: int| 0 <= i < points@.len() && r@.min.z == #[trigger] points@[i]@.z,
            exists|i: int| 0 <= i < points@.len() && r@.max.x == #[trigger] points@[i]@.x,
            exists|i: int| 0 <= i < points@.len() && r@.max.y == #[trigger] points@[i]@.y,
            exists|i: int| 0 <= i < points@.len() && r@.max.z == #[trigger] points@[i]@.z,
    {
        let mut mn = points[0];
        let mut mx = points[0];
        let mut k: usize = 1;
        while k < points.len()
            invariant
                1 <= k <= points@.len(),
                forall|i: int| 0 <= i < k ==> mn@.x <= #[trigger] points@[i]@.x && mn@.y
                    <= points@[i]@.y && mn@.z <= points@[i]@.z && points@[i]@.x <= mx@.x
                    && points@[i]@.y <= mx@.y && points@[i]@.z <= mx@.z,
                exists|i: int| 0 <= i < k && mn@.x == #[trigger] points@[i]@.x,
                exists|i: int| 0 <= i < k && mn@.y == #[trigger] points@[i]@.y,
                exists|i: int| 0 <= i < k && mn@.z == #[trigger] points@[i]@.z,
                exists|i: int| 0 <= i < k && mx@.x == #[trigger] points@[i]@.x,
                exists|i: int| 0 <= i < k && mx@.y == #[trigger] points@[i]@.y,
                exists|i: int| 0 <= i < k && mx@.z == #[trigger] points@[i]@.z,
            decreases points@.len() - k,
        {
            let p = points[k];
            mn = Vector3::min(mn, p);
            mx = Vector3::max(mx, p);
            k = k + 1;
        }
        BoundingBox { min: mn, max: mx }
    }

    pub fn contains_point(&self, value: Vector3) -> (r: bool)
        ensures
            r == self@.contains_point(value@),
    {
        self.min.x <= value.x && value.x <= self.max.x && self.min.y <= value.y && value.y
            <= self.max.y && self.min.z <= value.z && value.z <= self.max.z
    }

    pub fn intersects_box(&self, other: &BoundingBox) -> (r: bool)
        ensures
            r == self@.intersects_box(other@),
    {
        self.min.x <= other.max.x && other.min.x <= self.max.x && self.min.y <= other.max.y
            && other.min.y <= self.max.y && self.min.z <= other.max.z && other.min.z <= self.max.z
    }

    /// Whether the sphere reaches the box: the box's closest point to the
    /// center lies inside the sphere.
    pub fn intersects_sphere(&self, sphere: &BoundingSphere) -> (r: bool)
        requires
            self@.bounded(),
            sphere@.bounded(),
        ensures
            r == self@.intersects_sphere(sphere@),
    {
        let c = Vector3::clamp(sphere.center, self.min, self.max);
        proof {
            let l: int = COORD_LIMIT as int;
            lemma_mul_bound(c.x as int - sphere.center.x as int, 2 * l, c.x as int - sphere.center.x as int, 2 * l);
            lemma_mul_bound(c.y as int - sphere.center.y as int, 2 * l, c.y as int - sphere.center.y as int, 2 * l);
            lemma_mul_bound(c.z as int - sphere.center.z as int, 2 * l, c.z as int - sphere.center.z as int, 2 * l);
            lemma_mul_bound(sphere.radius as int, l, sphere.radius as int, l);
        }
        let d = (c.x - sphere.center.x) * (c.x - sphere.center.x) + (c.y - sphere.center.y) * (c.y
            - sphere.center.y) + (c.z - sphere.center.z) * (c.z - sphere.center.z);
        d <= sphere.radius * sphere.radius
    }
}

/// In a well-formed box the support corner maximizes the plane's signed
/// distance over every point of the box: the box lies wholly behind a
/// plane exactly when its support corner does.
pub proof fn lemma_support_is_extreme(p: Pln, b: Box3, v: Vec3)
    requires
        b.wf(),
        b.contains_point(v),
    ensures
        p.dot_coordinate(v) <= p.dot_coordinate(b.support_toward(p.a, p.b, p.c)),
{
    let s = b.support_toward(p.a, p.b, p.c);
    assert(p.a * v.x <= p.a * s.x) by (nonlinear_arith)
        requires
            b.min.x <= v.x <= b.max.x,
            s.x == if p.a > 0 { b.max.x } else { b.min.x },
    ;
    assert(p.b * v.y <= p.b * s.y) by (nonlinear_arith)
        requires
            b.min.y <= v.y <= b.max.y,
            s.y == if p.b > 0 { b.max.y } else { b.min.y },
    ;
    assert(p.c * v.z <= p.c * s.z) by (nonlinear_arith)
        requires
            b.min.z <= v.z <= b.max.z,
            s.z == if p.c > 0 { b.max.z } else { b.min.z },
    ;
}

} // verus!
