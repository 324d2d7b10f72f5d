use linalg::{Matrix3D, Matrix4D, Vector3D, Vector4D};

#[test]
fn scalar_multiplication_commutes() {
    let v = Vector3D::new(-3, 8, 11);
    assert_eq!(v.mul(-7), Vector3D::scalar_mul(-7, &v));
    let w = Vector4D::new(2, -4, 6, 9);
    assert_eq!(w.mul(13), Vector4D::scalar_mul(13, &w));
    let m = Matrix3D::new(1, -2, 3, 4, 5, -6, 7, 8, 9);
    assert_eq!(m.mul(4), Matrix3D::scalar_mul(4, &m));
    let n = Matrix4D::identity();
    assert_eq!(n.mul(-2), Matrix4D::scalar_mul(-2, &n));
}

#[test]
fn cross_product_orthogonal_to_operands() {
    let a = Vector3D::new(3, -7, 2);
    let b = Vector3D::new(-5, 4, 9);
    let c = a.cross(&b);
    assert_eq!(c, Vector3D::new(-71, -37, -23));
    assert_eq!(a.dot(&c), 0);
    assert_eq!(b.dot(&c), 0);
}

#[test]
fn projection_plus_rejection_is_identity() {
    let v = Vector3D::new(9, -4, 5);
    let axis = Vector3D::new(1, 2, 2);
    // v · axis = 11 and axis · axis = 9: both results are scaled by 9.
    let (p, d) = v.project(&axis);
    assert_eq!((p, d), (Vector3D::new(11, 22, 22), 9));
    let (r, e) = v.reject(&axis);
    assert_eq!((r, e), (Vector3D::new(70, -58, 23), 9));
    assert_eq!(r.dot(&axis), 0);
    assert_eq!(p.add(&r), v.mul(d));
}

#[test]
fn inverse_times_matrix_is_identity() {
    let m = Matrix3D::new(1, 2, 3, 0, 1, 4, 5, 6, 0);
    assert_eq!(m.determinant(), 1);
    let inv = m.integer_inverse().unwrap();
    assert_eq!(inv, Matrix3D::new(-24, 18, 5, 20, -15, -4, -5, 4, 1));
    assert_eq!(inv.mul_matrix(&m), Matrix3D::identity());
}

#[test]
fn singular_matrices_have_no_inverse() {
    assert_eq!(Matrix3D::identity().determinant(), 1);
    let zero_row = Matrix3D::new(1, 2, 3, 0, 0, 0, 4, 5, 6);
    assert_eq!(zero_row.determinant(), 0);
    assert!(zero_row.inverse().is_none());
    let (adjugate, det) = Matrix3D::new(1, 2, 3, 5, 5, 6, 7, 8, 9).inverse().unwrap();
    assert_eq!(det, 6);
    assert_eq!(adjugate.mul_matrix(&Matrix3D::new(1, 2, 3, 5, 5, 6, 7, 8, 9)), Matrix3D::identity().mul(6));
    let zero_row4 = Matrix4D::new(1, 2, 3, 4, 5, 6, 7, 8, 9, 10, 11, 12, 0, 0, 0, 0);
    assert_eq!(zero_row4.determinant(), 0);
    assert!(zero_row4.inverse().is_none());
}

#[test]
fn multiplication_associative_not_commutative() {
    let a = Matrix3D::new(1, 2, 0, 0, 1, 3, 4, 0, 1);
    let b = Matrix3D::new(2, 0, 1, 1, 3, 0, 0, 1, 1);
    let c = Matrix3D::new(0, 1, 2, 3, 0, 1, 1, 1, 0);
    assert_eq!(a.mul_matrix(&b.mul_matrix(&c)), a.mul_matrix(&b).mul_matrix(&c));
    assert_ne!(a.mul_matrix(&b), b.mul_matrix(&a));
}
