//! View frustums extracted from a view-projection matrix.
use vstd::prelude::*;

use crate::bounding_box::Box3;
use crate::bounding_box::BoundingBox;
use crate::bounding_sphere::BoundingSphere;
use crate::bounding_sphere::Sph;
use crate::matrix::Mat4;
use crate::matrix::Matrix;
use crate::plane::IntersectionType;
use crate::plane::Plane;
use crate::plane::Pln;
use crate::vector3::Vec3;
use crate::vector3::Vector3;
use crate::{lemma_mul_bound, COORD_LIMIT};

verus! {

/// Mathematical model of a view frustum: six planes whose normals point
/// into the volume, so that a point is inside exactly when no plane sees
/// it on its negative side.
pub struct Frus {
    pub near: Pln,
    pub far: Pln,
    pub left: Pln,
    pub right: Pln,
    pub bottom: Pln,
    pub top: Pln,
}

impl Frus {
    /// Every plane coefficient is at most twice the coordinate range in
    /// magnitude, as extraction from a bounded matrix leaves them.
    pub open spec fn bounded(self) -> bool {
        self.near.bounded_within(2 * (COORD_LIMIT as int)) && self.far.bounded_within(
            2 * (COORD_LIMIT as int),
        ) && self.left.bounded_within(2 * (COORD_LIMIT as int)) && self.right.bounded_within(
            2 * (COORD_LIMIT as int),
        ) && self.bottom.bounded_within(2 * (COORD_LIMIT as int)) && self.top.bounded_within(
            2 * (COORD_LIMIT as int),
        )
    }

    /// The six clipping planes of a row-vector view-projection matrix:
    /// each is a sum or difference of matrix columns, left unnormalized,
    /// which leaves every containment test exact.
    pub open spec fn from_matrix(m: Mat4) -> Frus {
        Frus {
            near: Pln { a: m.m13, b: m.m23, c: m.m33, d: m.m43 },
            far: Pln { a: m.m14 - m.m13, b: m.m24 - m.m23, c: m.m34 - m.m33, d: m.m44 - m.m43 },
            left: Pln { a: m.m14 + m.m11, b: m.m24 + m.m21, c: m.m34 + m.m31, d: m.m44 + m.m41 },
            right: Pln { a: m.m14 - m.m11, b: m.m24 - m.m21, c: m.m34 - m.m31, d: m.m44 - m.m41 },
            bottom: Pln { a: m.m14 + m.m12, b: m.m24 + m.m22, c: m.m34 + m.m32, d: m.m44 + m.m42 },
            top: Pln { a: m.m14 - m.m12, b: m.m24 - m.m22, c: m.m34 - m.m32, d: m.m44 - m.m42 },
        }
    }

    /// A point is inside the frustum when every plane sees it on its
    /// non-negative side.
    pub open spec fn contains_point(self, v: Vec3) -> bool {
        self.near.dot_coordinate(v) >= 0 && self.far.dot_coordinate(v) >= 0
            && self.left.dot_coordinate(v) >= 0 && self.right.dot_coordinate(v) >= 0
            && self.bottom.dot_coordinate(v) >= 0 && self.top.dot_coordinate(v) >= 0
    }
}


/// The box lies wholly behind the plane: even the corner farthest along
/// the plane's normal has negative signed distance.
pub open spec fn box_behind(p: Pln, b: Box3) -> bool {
    p.dot_coordinate(b.support_toward(p.a, p.b, p.c)) < 0
}

impl Frus {
    /// The six-plane test for a box: the box survives when no clipping
    /// plane sees it wholly behind.
    pub open spec fn intersects_box(self, b: Box3) -> bool {
        !box_behind(self.near, b) && !box_behind(self.far, b) && !box_behind(self.left, b) && !box_behind(self.right, b) && !box_behind(self.bottom, b) && !box_behind(self.top, b)
    }

    /// The six-plane test for a sphere: the sphere survives when no
    /// clipping plane sees it wholly behind.
    pub open spec fn intersects_sphere(self, s: Sph) -> bool {
        s.classify_plane(self.near) != IntersectionType::back && s.classify_plane(self.far) != IntersectionType::back && s.classify_plane(self.left) != IntersectionType::back && s.classify_plane(self.right) != IntersectionType::back && s.classify_plane(self.bottom) != IntersectionType::back && s.classify_plane(self.top) != IntersectionType::back
    }
}

/// A view frustum with exact `i128` plane coefficients.
#[derive(Clone, Copy, Debug, PartialEq, Eq, Structural)]
pub struct BoundingFrustum {
    pub near: Plane,
    pub far: Plane,
    pub left: Plane,
    pub right: Plane,
    pub bottom: Plane,
    pub top: Plane,
}

impl View for BoundingFrustum {
    type V = Frus;

    open spec fn view(&self) -> Frus {
        Frus {
            near: self.near@,
            far: self.far@,
            left: self.left@,
            right: self.right@,
            bottom: self.bottom@,
            top: self.top@,
        }
    }
}

impl BoundingFrustum {
    /// The six clipping planes of the row-vector view-projection matrix
    /// `value`, by the standard column extraction, left unnormalized.
    pub fn from_matrix(value: Matrix) -> (r: BoundingFrustum)
        requires
            value@.bounded(),
        ensures
            r@ == Frus::from_matrix(value@),
            r@.bounded(),
    {
        BoundingFrustum {
            near: Plane { a: value.m13, b: value.m23, c: value.m33, d: value.m43 },
            far: Plane {
                a: value.m14 - value.m13,
                b: value.m24 - value.m23,
                c: value.m34 - value.m33,
                d: value.m44 - value.m43,
            },
            left: Plane {
                a: value.m14 + value.m11,
                b: value.m24 + value.m21,
                c: value.m34 + value.m31,
                d: value.m44 + value.m41,
            },
            right: Plane {
                a: value.m14 - value.m11,
                b: value.m24 - value.m21,
                c: value.m34 - value.m31,
                d: value.m44 - value.m41,
            },
            bottom: Plane {
                a: value.m14 + value.m12,
                b: value.m24 + value.m22,
                c: value.m34 + value.m32,
                d: value.m44 + value.m42,
            },
            top: Plane {
                a: value.m14 - value.m12,
                b: value.m24 - value.m22,
                c: value.m34 - value.m32,
                d: value.m44 - value.m42,
            },
        }
    }

    pub fn contains_point(&self, value: Vector3) -> (r: bool)
        requires
            self@.bounded(),
            value@.bounded(),
        ensures
            r == self@.contains_point(value@),
    {
        proof {
            let l: int = COORD_LIMIT as int;
            lemma_mul_bound(self.near.a as int, 2 * l, value.x as int, l);
            lemma_mul_bound(self.near.b as int, 2 * l, value.y as int, l);
            lemma_mul_bound(self.near.c as int, 2 * l, value.z as int, l);
            lemma_mul_bound(self.far.a as int, 2 * l, value.x as int, l);
            lemma_mul_bound(self.far.b as int, 2 * l, value.y as int, l);
            lemma_mul_bound(self.far.c as int, 2 * l, value.z as int, l);
            lemma_mul_bound(self.left.a as int, 2 * l, value.x as int, l);
            lemma_mul_bound(self.left.b as int, 2 * l, value.y as int, l);
            lemma_mul_bound(self.left.c as int, 2 * l, value.z as int, l);
            lemma_mul_bound(self.right.a as int, 2 * l, value.x as int, l);
            lemma_mul_bound(self.right.b as int, 2 * l, value.y as int, l);
            lemma_mul_bound(self.right.c as int, 2 * l, value.z as int, l);
            lemma_mul_bound(self.bottom.a as int, 2 * l, value.x as int, l);
            lemma_mul_bound(self.bottom.b as int, 2 * l, value.y as int, l);
            lemma_mul_bound(self.bottom.c as int, 2 * l, value.z as int, l);
            lemma_mul_bound(self.top.a as int, 2 * l, value.x as int, l);
            lemma_mul_bound(self.top.b as int, 2 * l, value.y as int, l);
            lemma_mul_bound(self.top.c as int, 2 * l, value.z as int, l);
        }
        let dn = ((self.near.a * value.x + self.near.b * value.y) + self.near.c * value.z)
            + self.near.d;
        let df = ((self.far.a * value.x + self.far.b * value.y) + self.far.c * value.z)
            + self.far.d;
        let dl = ((self.left.a * value.x + self.left.b * value.y) + self.left.c * value.z)
            + self.left.d;
        let dr = ((self.right.a * value.x + self.right.b * value.y) + self.right.c * value.z)
            + self.right.d;
        let db = ((self.bottom.a * value.x + self.bottom.b * value.y) + self.bottom.c * value.z)
            + self.bottom.d;
        let dt = ((self.top.a * value.x + self.top.b * value.y) + self.top.c * value.z)
            + self.top.d;
        dn >= 0 && df >= 0 && dl >= 0 && dr >= 0 && db >= 0 && dt >= 0
    }

    /// The six-plane test for a box: false only when some clipping plane
    /// sees every corner of the box strictly behind it.
    pub fn intersects_box(&self, other: &BoundingBox) -> (r: bool)
        requires
            self@.bounded(),
            other@.bounded(),
        ensures
            r == self@.intersects_box(other@),
    {
        let sxnear = if self.near.a > 0 { other.max.x } else { other.min.x };
        let synear = if self.near.b > 0 { other.max.y } else { other.min.y };
        let sznear = if self.near.c > 0 { other.max.z } else { other.min.z };
        proof {
            let l: int = COORD_LIMIT as int;
            lemma_mul_bound(self.near.a as int, 2 * l, sxnear as int, l);
            lemma_mul_bound(self.near.b as int, 2 * l, synear as int, l);
            lemma_mul_bound(self.near.c as int, 2 * l, sznear as int, l);
        }
        let dnear = ((self.near.a * sxnear + self.near.b * synear) + self.near.c * sznear) + self.near.d;
        let sxfar = if self.far.a > 0 { other.max.x } else { other.min.x };
        let syfar = if self.far.b > 0 { other.max.y } else { other.min.y };
        let szfar = if self.far.c > 0 { other.max.z } else { other.min.z };
        proof {
            let l: int = COORD_LIMIT as int;
            lemma_mul_bound(self.far.a as int, 2 * l, sxfar as int, l);
            lemma_mul_bound(self.far.b as int, 2 * l, syfar as int, l);
            lemma_mul_bound(self.far.c as int, 2 * l, szfar as int, l);
        }
        let dfar = ((self.far.a * sxfar + self.far.b * syfar) + self.far.c * szfar) + self.far.d;
        let sxleft = if self.left.a > 0 { other.max.x } else { other.min.x };
        let syleft = if self.left.b > 0 { other.max.y } else { other.min.y };
        let szleft = if self.left.c > 0 { other.max.z } else { other.min.z };
        proof {
            let l: int = COORD_LIMIT as int;
            lemma_mul_bound(self.left.a as int, 2 * l, sxleft as int, l);
            lemma_mul_bound(self.left.b as int, 2 * l, syleft as int, l);
            lemma_mul_bound(self.left.c as int, 2 * l, szleft as int, l);
        }
        let dleft = ((self.left.a * sxleft + self.left.b * syleft) + self.left.c * szleft) + self.left.d;
        let sxright = if self.right.a > 0 { other.max.x } else { other.min.x };
        let syright = if self.right.b > 0 { other.max.y } else { other.min.y };
        let szright = if self.right.c > 0 { other.max.z } else { other.min.z };
        proof {
            let l: int = COORD_LIMIT as int;
            lemma_mul_bound(self.right.a as int, 2 * l, sxright as int, l);
            lemma_mul_bound(self.right.b as int, 2 * l, syright as int, l);
            lemma_mul_bound(self.right.c as int, 2 * l, szright as int, l);
        }
        let dright = ((self.right.a * sxright + self.right.b * syright) + self.right.c * szright) + self.right.d;
        let sxbottom = if self.bottom.a > 0 { other.max.x } else { other.min.x };
        let sybottom = if self.bottom.b > 0 { other.max.y } else { other.min.y };
        let szbottom = if self.bottom.c > 0 { other.max.z } else { other.min.z };
        proof {
            let l: int = COORD_LIMIT as int;
            lemma_mul_bound(self.bottom.a as int, 2 * l, sxbottom as int, l);
            lemma_mul_bound(self.bottom.b as int, 2 * l, sybottom as int, l);
            lemma_mul_bound(self.bottom.c as int, 2 * l, szbottom as int, l);
        }
        let dbottom = ((self.bottom.a * sxbottom + self.bottom.b * sybottom) + self.bottom.c * szbottom) + self.bottom.d;
        let sxtop = if self.top.a > 0 { other.max.x } else { other.min.x };
        let sytop = if self.top.b > 0 { other.max.y } else { other.min.y };
        let sztop = if self.top.c > 0 { other.max.z } else { other.min.z };
        proof {
            let l: int = COORD_LIMIT as int;
            lemma_mul_bound(self.top.a as int, 2 * l, sxtop as int, l);
            lemma_mul_bound(self.top.b as int, 2 * l, sytop as int, l);
            lemma_mul_bound(self.top.c as int, 2 * l, sztop as int, l);
        }
        let dtop = ((self.top.a * sxtop + self.top.b * sytop) + self.top.c * sztop) + self.top.d;
        dnear >= 0 && dfar >= 0 && dleft >= 0 && dright >= 0 && dbottom >= 0 && dtop >= 0
    }

    /// The six-plane test for a sphere: false only when some clipping
    /// plane sees the whole sphere strictly behind it. Exact, with no
    /// need for normalized planes.
    pub fn intersects_sphere(&self, sphere: &BoundingSphere) -> (r: bool)
        requires
            self@.bounded(),
            sphere@.bounded(),
        ensures
            r == self@.intersects_sphere(sphere@),
    {
        proof {
            let l: int = COORD_LIMIT as int;
            lemma_mul_bound(sphere.radius as int, l, sphere.radius as int, l);
        }
        let rr = sphere.radius * sphere.radius;
        proof {
            let l: int = COORD_LIMIT as int;
            let h: int = 6 * (l * l) + 2 * l;
            lemma_mul_bound(self.near.a as int, 2 * l, sphere.center.x as int, l);
            lemma_mul_bound(self.near.b as int, 2 * l, sphere.center.y as int, l);
            lemma_mul_bound(self.near.c as int, 2 * l, sphere.center.z as int, l);
            lemma_mul_bound(self.near.a as int, 2 * l, self.near.a as int, 2 * l);
            lemma_mul_bound(self.near.b as int, 2 * l, self.near.b as int, 2 * l);
            lemma_mul_bound(self.near.c as int, 2 * l, self.near.c as int, 2 * l);
        }
        let snear = ((self.near.a * sphere.center.x + self.near.b * sphere.center.y) + self.near.c
            * sphere.center.z) + self.near.d;
        let nnnear = self.near.a * self.near.a + self.near.b * self.near.b + self.near.c * self.near.c;
        proof {
            let l: int = COORD_LIMIT as int;
            let h: int = 6 * (l * l) + 2 * l;
            lemma_mul_bound(snear as int, h, snear as int, h);
            lemma_mul_bound(rr as int, l * l, nnnear as int, 12 * (l * l));
            assert(h * h < 0x40000000000000000000000000000000 && (l * l) * (12 * (l * l))
                < 0x40000000000000000000000000000000) by (nonlinear_arith)
                requires
                    h == 6 * (l * l) + 2 * l,
                    l == 0x40000000,
            ;
        }
        let backnear = snear < 0 && snear * snear > rr * nnnear;
        proof {
            let l: int = COORD_LIMIT as int;
            let h: int = 6 * (l * l) + 2 * l;
            lemma_mul_bound(self.far.a as int, 2 * l, sphere.center.x as int, l);
            lemma_mul_bound(self.far.b as int, 2 * l, sphere.center.y as int, l);
            lemma_mul_bound(self.far.c as int, 2 * l, sphere.center.z as int, l);
            lemma_mul_bound(self.far.a as int, 2 * l, self.far.a as int, 2 * l);
            lemma_mul_bound(self.far.b as int, 2 * l, self.far.b as int, 2 * l);
            lemma_mul_bound(self.far.c as int, 2 * l, self.far.c as int, 2 * l);
        }
        let sfar = ((self.far.a * sphere.center.x + self.far.b * sphere.center.y) + self.far.c
            * sphere.center.z) + self.far.d;
        let nnfar = self.far.a * self.far.a + self.far.b * self.far.b + self.far.c * self.far.c;
        proof {
            let l: int = COORD_LIMIT as int;
            let h: int = 6 * (l * l) + 2 * l;
            lemma_mul_bound(sfar as int, h, sfar as int, h);
            lemma_mul_bound(rr as int, l * l, nnfar as int, 12 * (l * l));
            assert(h * h < 0x40000000000000000000000000000000 && (l * l) * (12 * (l * l))
                < 0x40000000000000000000000000000000) by (nonlinear_arith)
                requires
                    h == 6 * (l * l) + 2 * l,
                    l == 0x40000000,
            ;
        }
        let backfar = sfar < 0 && sfar * sfar > rr * nnfar;
        proof {
            let l: int = COORD_LIMIT as int;
            let h: int = 6 * (l * l) + 2 * l;
            lemma_mul_bound(self.left.a as int, 2 * l, sphere.center.x as int, l);
            lemma_mul_bound(self.left.b as int, 2 * l, sphere.center.y as int, l);
            lemma_mul_bound(self.left.c as int, 2 * l, sphere.center.z as int, l);
            lemma_mul_bound(self.left.a as int, 2 * l, self.left.a as int, 2 * l);
            lemma_mul_bound(self.left.b as int, 2 * l, self.left.b as int, 2 * l);
            lemma_mul_bound(self.left.c as int, 2 * l, self.left.c as int, 2 * l);
        }
        let sleft = ((self.left.a * sphere.center.x + self.left.b * sphere.center.y) + self.left.c
            * sphere.center.z) + self.left.d;
        let nnleft = self.left.a * self.left.a + self.left.b * self.left.b + self.left.c * self.left.c;
        proof {
            let l: int = COORD_LIMIT as int;
            let h: int = 6 * (l * l) + 2 * l;
            lemma_mul_bound(sleft as int, h, sleft as int, h);
            lemma_mul_bound(rr as int, l * l, nnleft as int, 12 * (l * l));
            assert(h * h < 0x40000000000000000000000000000000 && (l * l) * (12 * (l * l))
                < 0x40000000000000000000000000000000) by (nonlinear_arith)
                requires
                    h == 6 * (l * l) + 2 * l,
                    l == 0x40000000,
            ;
        }
        let backleft = sleft < 0 && sleft * sleft > rr * nnleft;
        proof {
            let l: int = COORD_LIMIT as int;
            let h: int = 6 * (l * l) + 2 * l;
            lemma_mul_bound(self.right.a as int, 2 * l, sphere.center.x as int, l);
            lemma_mul_bound(self.right.b as int, 2 * l, sphere.center.y as int, l);
            lemma_mul_bound(self.right.c as int, 2 * l, sphere.center.z as int, l);
            lemma_mul_bound(self.right.a as int, 2 * l, self.right.a as int, 2 * l);
            lemma_mul_bound(self.right.b as int, 2 * l, self.right.b as int, 2 * l);
            lemma_mul_bound(self.right.c as int, 2 * l, self.right.c as int, 2 * l);
        }
        let sright = ((self.right.a * sphere.center.x + self.right.b * sphere.center.y) + self.right.c
            * sphere.center.z) + self.right.d;
        let nnright = self.right.a * self.right.a + self.right.b * self.right.b + self.right.c * self.right.c;
        proof {
            let l: int = COORD_LIMIT as int;
            let h: int = 6 * (l * l) + 2 * l;
            lemma_mul_bound(sright as int, h, sright as int, h);
            lemma_mul_bound(rr as int, l * l, nnright as int, 12 * (l * l));
            assert(h * h < 0x40000000000000000000000000000000 && (l * l) * (12 * (l * l))
                < 0x40000000000000000000000000000000) by (nonlinear_arith)
                requires
                    h == 6 * (l * l) + 2 * l,
                    l == 0x40000000,
            ;
        }
        let backright = sright < 0 && sright * sright > rr * nnright;
        proof {
            let l: int = COORD_LIMIT as int;
            let h: int = 6 * (l * l) + 2 * l;
            lemma_mul_bound(self.bottom.a as int, 2 * l, sphere.center.x as int, l);
            lemma_mul_bound(self.bottom.b as int, 2 * l, sphere.center.y as int, l);
            lemma_mul_bound(self.bottom.c as int, 2 * l, sphere.center.z as int, l);
            lemma_mul_bound(self.bottom.a as int, 2 * l, self.bottom.a as int, 2 * l);
            lemma_mul_bound(self.bottom.b as int, 2 * l, self.bottom.b as int, 2 * l);
            lemma_mul_bound(self.bottom.c as int, 2 * l, self.bottom.c as int, 2 * l);
        }
        let sbottom = ((self.bottom.a * sphere.center.x + self.bottom.b * sphere.center.y) + self.bottom.c
            * sphere.center.z) + self.bottom.d;
        let nnbottom = self.bottom.a * self.bottom.a + self.bottom.b * self.bottom.b + self.bottom.c * self.bottom.c;
        proof {
            let l: int = COORD_LIMIT as int;
            let h: int = 6 * (l * l) + 2 * l;
            lemma_mul_bound(sbottom as int, h, sbottom as int, h);
            lemma_mul_bound(rr as int, l * l, nnbottom as int, 12 * (l * l));
            assert(h * h < 0x40000000000000000000000000000000 && (l * l) * (12 * (l * l))
                < 0x40000000000000000000000000000000) by (nonlinear_arith)
                requires
                    h == 6 * (l * l) + 2 * l,
                    l == 0x40000000,
            ;
        }
        let backbottom = sbottom < 0 && sbottom * sbottom > rr * nnbottom;
        proof {
            let l: int = COORD_LIMIT as int;
            let h: int = 6 * (l * l) + 2 * l;
            lemma_mul_bound(self.top.a as int, 2 * l, sphere.center.x as int, l);
            lemma_mul_bound(self.top.b as int, 2 * l, sphere.center.y as int, l);
            lemma_mul_bound(self.top.c as int, 2 * l, sphere.center.z as int, l);
            lemma_mul_bound(self.top.a as int, 2 * l, self.top.a as int, 2 * l);
            lemma_mul_bound(self.top.b as int, 2 * l, self.top.b as int, 2 * l);
            lemma_mul_bound(self.top.c as int, 2 * l, self.top.c as int, 2 * l);
        }
        let stop = ((self.top.a * sphere.center.x + self.top.b * sphere.center.y) + self.top.c
            * sphere.center.z) + self.top.d;
        let nntop = self.top.a * self.top.a + self.top.b * self.top.b + self.top.c * self.top.c;
        proof {
            let l: int = COORD_LIMIT as int;
            let h: int = 6 * (l * l) + 2 * l;
            lemma_mul_bound(stop as int, h, stop as int, h);
            lemma_mul_bound(rr as int, l * l, nntop as int, 12 * (l * l));
            assert(h * h < 0x40000000000000000000000000000000 && (l * l) * (12 * (l * l))
                < 0x40000000000000000000000000000000) by (nonlinear_arith)
                requires
                    h == 6 * (l * l) + 2 * l,
                    l == 0x40000000,
            ;
        }
        let backtop = stop < 0 && stop * stop > rr * nntop;
        !backnear && !backfar && !backleft && !backright && !backbottom && !backtop
    }
}

} // verus!
