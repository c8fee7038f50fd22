use acid_math::matrix::Matrix;
use acid_math::quaternion::Quaternion;
use acid_math::vector3::Vector3;

fn diag(a: i128, b: i128, c: i128, d: i128) -> Matrix {
    Matrix::new(a, 0, 0, 0, 0, b, 0, 0, 0, 0, c, 0, 0, 0, 0, d)
}

#[test]
fn matrix_constructors() {
    assert_eq!(Matrix::identity(), diag(1, 1, 1, 1));
    assert_eq!(Matrix::zero(), diag(0, 0, 0, 0));
    assert_eq!(
        Matrix::one(),
        Matrix::new(1, 1, 1, 1, 1, 1, 1, 1, 1, 1, 1, 1, 1, 1, 1, 1)
    );
    assert_eq!(
        Matrix::translation(Vector3::new(1, 2, 3)),
        Matrix::new(1, 0, 0, 0, 0, 1, 0, 0, 0, 0, 1, 0, 1, 2, 3, 1)
    );
    assert_eq!(Matrix::scale(Vector3::new(2, 3, 4)), diag(2, 3, 4, 1));
}

#[test]
fn matrix_orientation_rows() {
    let m = Matrix::new(1, 2, 3, 0, 4, 5, 6, 0, 7, 8, 9, 0, 0, 0, 0, 1);
    assert_eq!(m.right(), Vector3::new(1, 2, 3));
    assert_eq!(m.left(), Vector3::new(-1, -2, -3));
    assert_eq!(m.up(), Vector3::new(4, 5, 6));
    assert_eq!(m.down(), Vector3::new(-4, -5, -6));
    assert_eq!(m.backward(), Vector3::new(7, 8, 9));
    assert_eq!(m.forward(), Vector3::new(-7, -8, -9));
}

#[test]
fn matrix_add_sub_negate() {
    let a = Matrix::one();
    let b = Matrix::identity();
    let s = a.add(b);
    assert_eq!(s.m11, 2);
    assert_eq!(s.m12, 1);
    assert_eq!(s.sub(b), a);
    assert_eq!(Matrix::negate(b), diag(-1, -1, -1, -1));
}

#[test]
fn matrix_mul_scalar() {
    assert_eq!(Matrix::identity().mul_scalar(5), diag(5, 5, 5, 5));
}

#[test]
fn matrix_mul_identity_is_neutral() {
    let m = Matrix::new(1, 2, 3, 4, 5, 6, 7, 8, 9, 10, 11, 12, 13, 14, 15, 16);
    assert_eq!(Matrix::mul(m, Matrix::identity()), m);
    assert_eq!(Matrix::mul(Matrix::identity(), m), m);
}

#[test]
fn matrix_mul_composes_in_row_vector_order() {
    // Translate, then scale: the translation row is scaled as well.
    let t = Matrix::translation(Vector3::new(1, 2, 3));
    let s = Matrix::scale(Vector3::new(2, 2, 2));
    let p = Matrix::mul(t, s);
    assert_eq!(p, Matrix::new(2, 0, 0, 0, 0, 2, 0, 0, 0, 0, 2, 0, 2, 4, 6, 1));
}

#[test]
fn matrix_transpose_is_an_involution() {
    let m = Matrix::new(1, 2, 3, 4, 5, 6, 7, 8, 9, 10, 11, 12, 13, 14, 15, 16);
    assert_eq!(Matrix::transpose(m).m12, 5);
    assert_eq!(Matrix::transpose(Matrix::transpose(m)), m);
}

#[test]
fn matrix_determinant_of_identity_and_zero() {
    assert_eq!(Matrix::determinant(Matrix::identity()), 1);
    assert_eq!(Matrix::determinant(Matrix::zero()), 0);
}

#[test]
fn matrix_determinant_of_diagonal_and_singular() {
    assert_eq!(Matrix::determinant(diag(2, 3, 4, 5)), 120);
    assert_eq!(Matrix::determinant(Matrix::scale(Vector3::new(2, 3, 4))), 24);
    // Two equal rows make the matrix singular.
    let m = Matrix::new(1, 2, 3, 4, 1, 2, 3, 4, 0, 0, 1, 0, 0, 0, 0, 1);
    assert_eq!(Matrix::determinant(m), 0);
}

#[test]
fn matrix_adjugate_of_translation_is_its_inverse() {
    let m = Matrix::translation(Vector3::new(1, 2, 3));
    assert_eq!(Matrix::determinant(m), 1);
    assert_eq!(Matrix::adjugate(m), Matrix::translation(Vector3::new(-1, -2, -3)));
}

#[test]
fn matrix_times_adjugate_is_determinant_times_identity() {
    let m = Matrix::new(2, 1, 0, 0, 0, 3, 1, 0, 1, 0, 4, 0, 5, -2, 7, 1);
    let det = Matrix::determinant(m);
    let adj = Matrix::adjugate(m);
    assert_eq!(Matrix::mul(m, adj), Matrix::identity().mul_scalar(det));
    assert_eq!(Matrix::mul(adj, m), Matrix::identity().mul_scalar(det));
}

#[test]
fn matrix_lerp_endpoints() {
    let a = Matrix::one();
    let b = Matrix::identity().mul_scalar(3);
    assert_eq!(Matrix::lerp(a, b, 0), a);
    assert_eq!(Matrix::lerp(a, b, 1), b);
}

#[test]
fn matrix_from_quaternion_identity() {
    assert_eq!(Matrix::from_quaternion(Quaternion::identity()), Matrix::identity());
}

#[test]
fn matrix_from_quaternion_half_turn_is_orthogonal() {
    // A half turn about z: x and y are negated.
    let r = Matrix::from_quaternion(Quaternion::new(0, 0, 1, 0));
    assert_eq!(r, diag(-1, -1, 1, 1));
    assert_eq!(Matrix::mul(r, Matrix::transpose(r)), Matrix::identity());
}

#[test]
fn matrix_transform_by_identity_quaternion() {
    let m = Matrix::new(1, 2, 3, 4, 5, 6, 7, 8, 9, 10, 11, 12, 13, 14, 15, 16);
    assert_eq!(Matrix::transform(m, Quaternion::identity()), m);
}

#[test]
fn matrix_transform_keeps_the_fourth_column() {
    let m = Matrix::one();
    let q = Quaternion::new(0, 0, 1, 0);
    let r = Matrix::transform(m, q);
    assert_eq!(r.m14, 1);
    assert_eq!(r.m24, 1);
    assert_eq!(r.m34, 1);
    assert_eq!(r.m44, 1);
}

#[test]
fn matrix_of_a_quaternion_product_is_the_product_of_matrices() {
    // A half turn about z, then a half turn about x.
    let p = Quaternion::new(0, 0, 1, 0);
    let q = Quaternion::new(1, 0, 0, 0);
    let lhs = Matrix::from_quaternion(q.mul(p));
    let rhs = Matrix::mul(Matrix::from_quaternion(p), Matrix::from_quaternion(q));
    assert_eq!(lhs, rhs);
}
