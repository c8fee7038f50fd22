//! Bounding spheres with exact integer centers and radii.
use vstd::prelude::*;

use crate::plane::IntersectionType;
use crate::plane::Plane;
use crate::plane::Pln;
use crate::vector3::Vec3;
use crate::vector3::Vector3;
use crate::{in_range, lemma_mul_bound, COORD_LIMIT};

verus! {

/// Mathematical model of a sphere: a center and a radius over unbounded
/// integers.
pub struct Sph {
    pub center: Vec3,
    pub radius: int,
}

impl Sph {
    /// The center and radius lie within the range the executable
    /// operations accept.
    pub open spec fn bounded(self) -> bool {
        self.center.bounded() && in_range(self.radius)
    }

    /// A sphere is well formed when its radius is not negative.
    pub open spec fn wf(self) -> bool {
        self.radius >= 0
    }

    /// A point is inside the sphere (boundary included) when its squared
    /// distance from the center is at most the squared radius.
    pub open spec fn contains_point(self, v: Vec3) -> bool {
        self.center.dist_sq(v) <= self.radius * self.radius
    }

    /// Two spheres meet when the squared distance of their centers is at
    /// most the square of the sum of their radii.
    pub open spec fn intersects_sphere(self, o: Sph) -> bool {
        self.center.dist_sq(o.center) <= (self.radius + o.radius) * (self.radius + o.radius)
    }

    /// Which side of `p` the sphere lies on: wholly on the positive side,
    /// wholly on the negative side, or touching the plane. The comparison
    /// squares the signed distance so that the plane need not carry a unit
    /// normal.
    pub open spec fn classify_plane(self, p: Pln) -> IntersectionType {
        let s = p.dot_coordinate(self.center);
        if s > 0 && s * s > self.radius * self.radius * p.normal_len_sq() {
            IntersectionType::front
        } else if s < 0 && s * s > self.radius * self.radius * p.normal_len_sq() {
            IntersectionType::back
        } else {
            IntersectionType::intersecting
        }
    }
}

/// A bounding sphere with an exact `i128` center and radius.
#[derive(Clone, Copy, Debug, PartialEq, Eq, Structural)]
pub struct BoundingSphere {
    pub center: Vector3,
    pub radius: i128,
}

impl View for BoundingSphere {
    type V = Sph;

    open spec fn view(&self) -> Sph {
        Sph { center: self.center@, radius: self.radius as int }
    }
}

impl BoundingSphere {
    pub fn new(center: Vector3, radius: i128) -> (r: BoundingSphere)
        requires
            radius >= 0,
        ensures
            r@ == (Sph { center: center@, radius: radius as int }),
            r@.wf(),
    {
        BoundingSphere { center, radius }
    }

    pub fn contains_point(&self, value: Vector3) -> (r: bool)
        requires
            self@.bounded(),
            value@.bounded(),
        ensures
            r == self@.contains_point(value@),
    {
        proof {
            let l: int = COORD_LIMIT as int;
            lemma_mul_bound(self.center.x as int - value.x as int, 2 * l, self.center.x as int - value.x as int, 2 * l);
            lemma_mul_bound(self.center.y as int - value.y as int, 2 * l, self.center.y as int - value.y as int, 2 * l);
            lemma_mul_bound(self.center.z as int - value.z as int, 2 * l, self.center.z as int - value.z as int, 2 * l);
            lemma_mul_bound(self.radius as int, l, self.radius as int, l);
        }
        let d = (self.center.x - value.x) * (self.center.x - value.x) + (self.center.y - value.y)
            * (self.center.y - value.y) + (self.center.z - value.z) * (self.center.z - value.z);
        d <= self.radius * self.radius
    }

    pub fn intersects_sphere(&self, other: &BoundingSphere) -> (r: bool)
        requires
            self@.bounded(),
            other@.bounded(),
        ensures
            r == self@.intersects_sphere(other@),
    {
        proof {
            let l: int = COORD_LIMIT as int;
            lemma_mul_bound(self.center.x as int - other.center.x as int, 2 * l, self.center.x as int - other.center.x as int, 2 * l);
            lemma_mul_bound(self.center.y as int - other.center.y as int, 2 * l, self.center.y as int - other.center.y as int, 2 * l);
            lemma_mul_bound(self.center.z as int - other.center.z as int, 2 * l, self.center.z as int - other.center.z as int, 2 * l);
            lemma_mul_bound(self.radius as int + other.radius as int, 2 * l, self.radius as int + other.radius as int, 2 * l);
        }
        let d = (self.center.x - other.center.x) * (self.center.x - other.center.x) + (
        self.center.y - other.center.y) * (self.center.y - other.center.y) + (self.center.z
            - other.center.z) * (self.center.z - other.center.z);
        d <= (self.radius + other.radius) * (self.radius + other.radius)
    }

    /// Which side of `plane` the sphere lies on; exact, with no need for a
    /// normalized plane.
    pub fn intersects_plane(&self, plane: Plane) -> (r: IntersectionType)
        requires
            self@.bounded(),
            plane@.bounded(),
        ensures
            r == self@.classify_plane(plane@),
    {
        let s = Plane::dot_coordinate(plane, self.center);
        proof {
            let l: int = COORD_LIMIT as int;
            let h: int = 3 * (l * l) + l;
            lemma_mul_bound(plane.a as int, l, self.center.x as int, l);
            lemma_mul_bound(plane.b as int, l, self.center.y as int, l);
            lemma_mul_bound(plane.c as int, l, self.center.z as int, l);
            lemma_mul_bound(s as int, h, s as int, h);
            lemma_mul_bound(self.radius as int, l, self.radius as int, l);
            lemma_mul_bound(plane.a as int, l, plane.a as int, l);
            lemma_mul_bound(plane.b as int, l, plane.b as int, l);
            lemma_mul_bound(plane.c as int, l, plane.c as int, l);
            lemma_mul_bound(
                self.radius as int * self.radius as int,
                l * l,
                plane.a as int * plane.a as int + plane.b as int * plane.b as int + plane.c as int
                    * plane.c as int,
                3 * (l * l),
            );
        }
        let rr = self.radius * self.radius;
        let nn = plane.a * plane.a + plane.b * plane.b + plane.c * plane.c;
        if s > 0 && s * s > rr * nn {
            IntersectionType::front
        } else if s < 0 && s * s > rr * nn {
            IntersectionType::back
        } else {
            IntersectionType::intersecting
        }
    }
}

} // verus!
