use acid_math::bounding_box::BoundingBox;
use acid_math::bounding_frustum::BoundingFrustum;
use acid_math::bounding_sphere::BoundingSphere;
use acid_math::matrix::Matrix;
use acid_math::plane::IntersectionType;
use acid_math::plane::Plane;
use acid_math::quaternion::Quaternion;
use acid_math::vector3::Vector3;
use acid_math::vector4::Vector4;

#[test]
fn quaternion_identity_is_neutral() {
    let q = Quaternion::new(1, 2, 3, 4);
    assert_eq!(q.mul(Quaternion::identity()), q);
    assert_eq!(Quaternion::identity().mul(q), q);
}

#[test]
fn quaternion_conjugate_inverts_a_unit_rotation() {
    let q = Quaternion::new(0, 0, 1, 0);
    assert_eq!(q.length_squared(), 1);
    assert_eq!(q.mul(q.conjugate()), Quaternion::identity());
    assert_eq!(q.conjugate().mul(q), Quaternion::identity());
}

#[test]
fn quaternion_times_conjugate_is_its_squared_length() {
    let q = Quaternion::new(1, 2, 3, 4);
    assert_eq!(q.length_squared(), 30);
    assert_eq!(q.mul(q.conjugate()), Quaternion::new(0, 0, 0, 30));
}

#[test]
fn quaternion_hamilton_product() {
    // i * j == k
    let i = Quaternion::new(1, 0, 0, 0);
    let j = Quaternion::new(0, 1, 0, 0);
    let k = Quaternion::new(0, 0, 1, 0);
    assert_eq!(i.mul(j), k);
    assert_eq!(j.mul(i), Quaternion::new(0, 0, -1, 0));
}

#[test]
fn vector4_arithmetic() {
    let a = Vector4::new(1, 2, 3, 4);
    let b = Vector4::new(10, 20, 30, 40);
    assert_eq!(a.add(b), Vector4::new(11, 22, 33, 44));
    assert_eq!(b.sub(a), Vector4::new(9, 18, 27, 36));
    assert_eq!(Vector4::negate(a), Vector4::new(-1, -2, -3, -4));
    assert_eq!(Vector4::dot(a, b), 300);
    assert_eq!(Vector4::dot(a, b), Vector4::dot(b, a));
    assert_eq!(Vector4::lerp(a, b, 0), a);
    assert_eq!(Vector4::lerp(a, b, 1), b);
    assert_eq!(Vector4::zero(), Vector4::new(0, 0, 0, 0));
    assert_eq!(Vector4::one(), Vector4::new(1, 1, 1, 1));
}

#[test]
fn plane_signed_distance_from_the_floor() {
    // The xz plane: y == 0.
    let p = Plane::new(0, 1, 0, 0);
    assert_eq!(Plane::dot_coordinate(p, Vector3::new(0, 5, 0)), 5);
    assert_eq!(Plane::dot_coordinate(p, Vector3::new(3, -2, 9)), -2);
}

#[test]
fn plane_dot_variants_agree_on_homogeneous_points() {
    let p = Plane::new(1, 2, 3, 4);
    let v = Vector3::new(5, 6, 7);
    assert_eq!(
        Plane::dot(p, Vector4::new(5, 6, 7, 1)),
        Plane::dot_coordinate(p, v)
    );
    assert_eq!(
        Plane::dot(p, Vector4::new(5, 6, 7, 0)),
        Plane::dot_normal(p, v)
    );
    assert_eq!(Plane::dot_normal(p, v), 5 + 12 + 21);
}

#[test]
fn plane_transform_quaternion_rotates_the_normal_only() {
    let p = Plane::new(1, 0, 0, 4);
    let q = Quaternion::new(0, 0, 1, 0);
    let r = Plane::transform_quaternion(p, q);
    assert_eq!(r, Plane::new(-1, 0, 0, 4));
    let s = Plane::transform_quaternion(p, Quaternion::identity());
    assert_eq!(s, p);
}

#[test]
fn sphere_contains_point_on_its_boundary() {
    let s = BoundingSphere::new(Vector3::new(1, 1, 1), 5);
    assert!(s.contains_point(Vector3::new(1, 1, 1)));
    assert!(s.contains_point(Vector3::new(4, 5, 1)));
    assert!(!s.contains_point(Vector3::new(4, 5, 2)));
}

#[test]
fn spheres_touching_from_outside_intersect() {
    let a = BoundingSphere::new(Vector3::zero(), 2);
    let b = BoundingSphere::new(Vector3::new(5, 0, 0), 3);
    let c = BoundingSphere::new(Vector3::new(6, 0, 0), 3);
    assert!(a.intersects_sphere(&b));
    assert!(!a.intersects_sphere(&c));
}

#[test]
fn sphere_against_a_plane_without_unit_normal() {
    // The plane y == 0, with a doubled normal: the classification is exact
    // regardless of the normal's length.
    let p = Plane::new(0, 2, 0, 0);
    let above = BoundingSphere::new(Vector3::new(0, 5, 0), 2);
    let below = BoundingSphere::new(Vector3::new(0, -5, 0), 2);
    let touching = BoundingSphere::new(Vector3::new(0, 1, 0), 2);
    assert_eq!(above.intersects_plane(p), IntersectionType::front);
    assert_eq!(below.intersects_plane(p), IntersectionType::back);
    assert_eq!(touching.intersects_plane(p), IntersectionType::intersecting);
}

#[test]
fn box_contains_its_corners() {
    let b = BoundingBox::new(Vector3::zero(), Vector3::new(2, 2, 2));
    assert!(b.contains_point(Vector3::zero()));
    assert!(b.contains_point(Vector3::new(2, 2, 2)));
    assert!(b.contains_point(Vector3::new(1, 0, 2)));
    assert!(!b.contains_point(Vector3::new(1, 3, 1)));
    assert!(!b.contains_point(Vector3::new(-1, 0, 0)));
}

#[test]
fn boxes_touching_at_a_face_intersect() {
    let a = BoundingBox::new(Vector3::zero(), Vector3::new(2, 2, 2));
    let b = BoundingBox::new(Vector3::new(2, 0, 0), Vector3::new(4, 2, 2));
    let c = BoundingBox::new(Vector3::new(3, 0, 0), Vector3::new(4, 2, 2));
    assert!(a.intersects_box(&b));
    assert!(!a.intersects_box(&c));
}

#[test]
fn box_against_sphere_at_a_face() {
    let b = BoundingBox::new(Vector3::zero(), Vector3::new(2, 2, 2));
    let touching = BoundingSphere::new(Vector3::new(4, 1, 1), 2);
    let short = BoundingSphere::new(Vector3::new(4, 1, 1), 1);
    let inside = BoundingSphere::new(Vector3::new(1, 1, 1), 1);
    assert!(b.intersects_sphere(&touching));
    assert!(!b.intersects_sphere(&short));
    assert!(b.intersects_sphere(&inside));
}

#[test]
fn box_from_points_is_tight() {
    let points = vec![
        Vector3::new(1, 5, 3),
        Vector3::new(2, 0, 4),
        Vector3::new(0, 2, 9),
    ];
    let b = BoundingBox::from_points(&points);
    assert_eq!(b.min, Vector3::new(0, 0, 3));
    assert_eq!(b.max, Vector3::new(2, 5, 9));
}

#[test]
fn box_from_one_point_is_that_point() {
    let points = vec![Vector3::new(4, -4, 7)];
    let b = BoundingBox::from_points(&points);
    assert_eq!(b.min, b.max);
    assert_eq!(b.min, Vector3::new(4, -4, 7));
}

#[test]
fn frustum_of_the_identity_matrix() {
    // Under the identity view-projection the visible volume is the unit
    // slab: x and y between minus one and one, z between zero and one.
    let f = BoundingFrustum::from_matrix(Matrix::identity());
    assert!(f.contains_point(Vector3::zero()));
    assert!(f.contains_point(Vector3::new(1, -1, 1)));
    assert!(!f.contains_point(Vector3::new(2, 0, 0)));
    assert!(!f.contains_point(Vector3::new(0, 0, -1)));
}

#[test]
fn frustum_planes_of_the_identity_matrix() {
    let f = BoundingFrustum::from_matrix(Matrix::identity());
    assert_eq!(f.near, Plane::new(0, 0, 1, 0));
    assert_eq!(f.far, Plane::new(0, 0, -1, 1));
    assert_eq!(f.left, Plane::new(1, 0, 0, 1));
    assert_eq!(f.right, Plane::new(-1, 0, 0, 1));
    assert_eq!(f.bottom, Plane::new(0, 1, 0, 1));
    assert_eq!(f.top, Plane::new(0, -1, 0, 1));
}

#[test]
fn frustum_against_boxes() {
    let f = BoundingFrustum::from_matrix(Matrix::identity());
    let inside = BoundingBox::new(Vector3::zero(), Vector3::new(1, 1, 1));
    let outside_left = BoundingBox::new(Vector3::new(-5, -5, -5), Vector3::new(-3, -3, -3));
    let straddling = BoundingBox::new(Vector3::new(-9, -9, -9), Vector3::new(9, 9, 9));
    assert!(f.intersects_box(&inside));
    assert!(!f.intersects_box(&outside_left));
    assert!(f.intersects_box(&straddling));
}

#[test]
fn frustum_against_spheres() {
    let f = BoundingFrustum::from_matrix(Matrix::identity());
    let inside = BoundingSphere::new(Vector3::zero(), 1);
    let outside = BoundingSphere::new(Vector3::new(5, 0, 0), 1);
    let touching = BoundingSphere::new(Vector3::new(2, 0, 0), 1);
    assert!(f.intersects_sphere(&inside));
    assert!(!f.intersects_sphere(&outside));
    assert!(f.intersects_sphere(&touching));
}
