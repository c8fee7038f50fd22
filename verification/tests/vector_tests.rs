use acid_math::vector2::Vector2;
use acid_math::vector3::Vector3;
use acid_math::quaternion::Quaternion;
use acid_math::matrix::Matrix;

#[test]
fn vector2_constructors() {
    assert_eq!(Vector2::new(3, -4), Vector2 { x: 3, y: -4 });
    assert_eq!(Vector2::zero(), Vector2::new(0, 0));
    assert_eq!(Vector2::one(), Vector2::new(1, 1));
    assert_eq!(Vector2::up(), Vector2::new(0, -1));
    assert_eq!(Vector2::down(), Vector2::new(0, 1));
    assert_eq!(Vector2::left(), Vector2::new(-1, 0));
    assert_eq!(Vector2::right(), Vector2::new(1, 0));
}

#[test]
fn vector2_arithmetic() {
    let a = Vector2::new(1, 2);
    let b = Vector2::new(30, -40);
    assert_eq!(a.add(b), Vector2::new(31, -38));
    assert_eq!(a.sub(b), Vector2::new(-29, 42));
    assert_eq!(a.mul(b), Vector2::new(30, -80));
    assert_eq!(a.mul_scalar(-3), Vector2::new(-3, -6));
    assert_eq!(a.length_squared(), 5);
}

#[test]
fn vector2_dot_is_commutative() {
    let a = Vector2::new(1, 2);
    let b = Vector2::new(3, 4);
    assert_eq!(Vector2::dot(a, b), 11);
    assert_eq!(Vector2::dot(a, b), Vector2::dot(b, a));
}

#[test]
fn vector2_reflect() {
    // A vector heading into the floor bounces off the y normal.
    let r = Vector2::reflect(Vector2::new(1, -1), Vector2::new(0, 1));
    assert_eq!(r, Vector2::new(1, 1));
}

#[test]
fn vector2_min_max_clamp() {
    let a = Vector2::new(5, -2);
    let b = Vector2::new(3, 1);
    assert_eq!(Vector2::min(a, b), Vector2::new(3, -2));
    assert_eq!(Vector2::max(a, b), Vector2::new(5, 1));
    assert_eq!(
        Vector2::clamp(Vector2::new(9, -9), Vector2::new(0, 0), Vector2::new(4, 4)),
        Vector2::new(4, 0)
    );
    // The cap runs first and the floor second, so a floor above the cap wins.
    assert_eq!(
        Vector2::clamp(Vector2::new(5, 5), Vector2::new(3, 3), Vector2::new(1, 1)),
        Vector2::new(3, 3)
    );
}

#[test]
fn vector2_lerp_endpoints() {
    let a = Vector2::new(2, 4);
    let b = Vector2::new(10, -6);
    assert_eq!(Vector2::lerp(a, b, 0), a);
    assert_eq!(Vector2::lerp(a, b, 1), b);
    // An amount outside the unit interval extrapolates.
    assert_eq!(Vector2::lerp(a, b, 2), Vector2::new(18, -16));
}

#[test]
fn vector2_barycentric() {
    let v1 = Vector2::new(0, 0);
    let v2 = Vector2::new(10, 0);
    let v3 = Vector2::new(0, 10);
    assert_eq!(Vector2::barycentric(v1, v2, v3, 1, 0), v2);
    assert_eq!(Vector2::barycentric(v1, v2, v3, 0, 1), v3);
    assert_eq!(Vector2::barycentric(v1, v2, v3, 1, 1), Vector2::new(10, 10));
}

#[test]
fn vector3_constructors() {
    assert_eq!(Vector3::new(1, 2, 3), Vector3 { x: 1, y: 2, z: 3 });
    assert_eq!(Vector3::zero(), Vector3::new(0, 0, 0));
    assert_eq!(Vector3::one(), Vector3::new(1, 1, 1));
    assert_eq!(Vector3::up(), Vector3::new(0, -1, 0));
    assert_eq!(Vector3::down(), Vector3::new(0, 1, 0));
    assert_eq!(Vector3::left(), Vector3::new(-1, 0, 0));
    assert_eq!(Vector3::right(), Vector3::new(1, 0, 0));
    assert_eq!(Vector3::forward(), Vector3::new(0, 0, 1));
    assert_eq!(Vector3::backward(), Vector3::new(0, 0, -1));
}

#[test]
fn vector3_equals_is_exact() {
    let a = Vector3::new(1, 2, 3);
    assert!(a.equals(Vector3::new(1, 2, 3)));
    assert!(!a.equals(Vector3::new(1, 2, 4)));
}

#[test]
fn vector3_length_squared_of_pythagorean_triples() {
    assert_eq!(Vector3::new(3, 0, 0).length_squared(), 9);
    assert_eq!(Vector3::new(3, 4, 0).length_squared(), 25);
}

#[test]
fn vector3_dot_is_commutative() {
    let a = Vector3::new(1, -2, 3);
    let b = Vector3::new(4, 5, -6);
    assert_eq!(Vector3::dot(a, b), 1 * 4 + (-2) * 5 + 3 * (-6));
    assert_eq!(Vector3::dot(a, b), Vector3::dot(b, a));
}

#[test]
fn vector3_cross_is_anticommutative() {
    let a = Vector3::new(1, 2, 3);
    let b = Vector3::new(4, 5, 6);
    assert_eq!(Vector3::cross(a, b), Vector3::new(-3, 6, -3));
    assert_eq!(Vector3::cross(a, b), Vector3::negate(Vector3::cross(b, a)));
}

#[test]
fn vector3_cross_of_axes() {
    let x = Vector3::new(1, 0, 0);
    let y = Vector3::new(0, 1, 0);
    let z = Vector3::new(0, 0, 1);
    assert_eq!(Vector3::cross(x, y), z);
    assert_eq!(Vector3::cross(y, z), x);
    assert_eq!(Vector3::cross(x, x), Vector3::zero());
}

#[test]
fn vector3_reflect() {
    let r = Vector3::reflect(Vector3::new(1, -1, 2), Vector3::new(0, 1, 0));
    assert_eq!(r, Vector3::new(1, 1, 2));
}

#[test]
fn vector3_min_max_clamp() {
    let a = Vector3::new(5, -2, 7);
    let b = Vector3::new(3, 1, 9);
    assert_eq!(Vector3::min(a, b), Vector3::new(3, -2, 7));
    assert_eq!(Vector3::max(a, b), Vector3::new(5, 1, 9));
    assert_eq!(
        Vector3::clamp(Vector3::new(9, -9, 2), Vector3::zero(), Vector3::new(4, 4, 4)),
        Vector3::new(4, 0, 2)
    );
}

#[test]
fn vector3_lerp_endpoints() {
    let a = Vector3::new(2, 4, -8);
    let b = Vector3::new(10, -6, 0);
    assert_eq!(Vector3::lerp(a, b, 0), a);
    assert_eq!(Vector3::lerp(a, b, 1), b);
    assert_eq!(Vector3::lerp(a, b, 2), Vector3::new(18, -16, 8));
}

#[test]
fn vector3_barycentric() {
    let v1 = Vector3::new(0, 0, 0);
    let v2 = Vector3::new(6, 0, 0);
    let v3 = Vector3::new(0, 6, 0);
    assert_eq!(Vector3::barycentric(v1, v2, v3, 1, 1), Vector3::new(6, 6, 0));
}

#[test]
fn vector3_smooth_step_clamps_its_amount() {
    let a = Vector3::new(0, 0, 0);
    let b = Vector3::new(10, 20, 30);
    assert_eq!(Vector3::smooth_step(a, b, 0), a);
    assert_eq!(Vector3::smooth_step(a, b, 1), b);
    // Amounts beyond the unit interval are clamped, not extrapolated.
    assert_eq!(Vector3::smooth_step(a, b, 5), b);
    assert_eq!(Vector3::smooth_step(a, b, -3), a);
}

#[test]
fn vector3_catmull_rom_interpolates_the_middle_points() {
    let p1 = Vector3::new(0, 1, 2);
    let p2 = Vector3::new(2, 3, 4);
    let p3 = Vector3::new(4, 5, 6);
    let p4 = Vector3::new(6, 7, 8);
    assert_eq!(Vector3::catmull_rom(p1, p2, p3, p4, 0), p2);
    assert_eq!(Vector3::catmull_rom(p1, p2, p3, p4, 1), p3);
    // Equally spaced control points continue linearly beyond the segment.
    assert_eq!(Vector3::catmull_rom(p1, p2, p3, p4, 2), Vector3::new(6, 7, 8));
}

#[test]
fn vector3_catmull_rom_is_exact_on_a_bump() {
    let z = Vector3::zero();
    let bump = Vector3::new(1, 0, 0);
    assert_eq!(Vector3::catmull_rom(z, z, bump, z, 2), Vector3::new(-3, 0, 0));
}

#[test]
fn vector3_hermite_endpoints_and_tangents() {
    let v1 = Vector3::new(1, 2, 3);
    let t1 = Vector3::new(9, 9, 9);
    let v2 = Vector3::new(-5, 0, 5);
    let t2 = Vector3::new(-9, 9, 0);
    assert_eq!(Vector3::hermite(v1, t1, v2, t2, 0), v1);
    assert_eq!(Vector3::hermite(v1, t1, v2, t2, 1), v2);
    let zero = Vector3::zero();
    let one = Vector3::new(1, 1, 1);
    assert_eq!(Vector3::hermite(zero, one, zero, one, 2), Vector3::new(6, 6, 6));
}

#[test]
fn vector3_transform_translates_points() {
    let m = Matrix::translation(Vector3::new(1, 2, 3));
    assert_eq!(Vector3::transform(Vector3::zero(), m), Vector3::new(1, 2, 3));
    assert_eq!(Vector3::transform(Vector3::new(1, 1, 1), m), Vector3::new(2, 3, 4));
}

#[test]
fn vector3_transform_normal_ignores_translation() {
    let m = Matrix::translation(Vector3::new(1, 2, 3));
    assert_eq!(Vector3::transform_normal(Vector3::zero(), m), Vector3::zero());
    assert_eq!(Vector3::transform_normal(Vector3::new(1, 1, 1), m), Vector3::new(1, 1, 1));
}

#[test]
fn vector3_transform_scales() {
    let m = Matrix::scale(Vector3::new(2, 3, 4));
    assert_eq!(Vector3::transform(Vector3::new(1, 1, 1), m), Vector3::new(2, 3, 4));
}

#[test]
fn vector3_transform_quaternion_identity() {
    let v = Vector3::new(7, -8, 9);
    assert_eq!(Vector3::transform_quaternion(v, Quaternion::identity()), v);
}

#[test]
fn vector3_transform_quaternion_half_turn() {
    // A half turn about the z axis negates x and y and keeps z.
    let q = Quaternion::new(0, 0, 1, 0);
    let v = Vector3::new(1, 2, 3);
    assert_eq!(Vector3::transform_quaternion(v, q), Vector3::new(-1, -2, 3));
}

#[test]
fn vector3_arithmetic() {
    let a = Vector3::new(1, 2, 3);
    let b = Vector3::new(10, -20, 30);
    assert_eq!(a.add(b), Vector3::new(11, -18, 33));
    assert_eq!(a.sub(b), Vector3::new(-9, 22, -27));
    assert_eq!(a.mul(b), Vector3::new(10, -40, 90));
    assert_eq!(a.mul_scalar(-2), Vector3::new(-2, -4, -6));
    assert_eq!(Vector3::negate(a), Vector3::new(-1, -2, -3));
}

#[test]
fn vector3_quaternion_rotation_matches_its_matrix() {
    let v = Vector3::new(1, -1, 2);
    let q = Quaternion::new(1, 2, 3, 4);
    assert_eq!(
        Vector3::transform_quaternion(v, q),
        Vector3::transform_normal(v, Matrix::from_quaternion(q))
    );
}
