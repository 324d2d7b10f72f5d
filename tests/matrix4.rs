use linalg::{Matrix4D, Vector4D};

fn sample() -> Matrix4D {
    Matrix4D::new(1, 2, 3, 4, 5, 6, 7, 8, 9, 10, 11, 12, 13, 14, 15, 16)
}

fn assert_rows(m: &Matrix4D, expected: [[i64; 4]; 4]) {
    for i in 0..4 {
        for j in 0..4 {
            assert_eq!(m.at(i).at(j), expected[i][j], "entry ({}, {})", i, j);
        }
    }
}

#[test]
fn matrix4_constructor() {
    assert_rows(&sample(), [[1, 2, 3, 4], [5, 6, 7, 8], [9, 10, 11, 12], [13, 14, 15, 16]]);
}

#[test]
fn matrix4_vector_constructor() {
    let vector1 = Vector4D::new(1, 2, 3, 4);
    let vector2 = Vector4D::new(5, 6, 7, 8);
    let vector3 = Vector4D::new(9, 10, 11, 12);
    let vector4 = Vector4D::new(13, 14, 15, 16);
    let matrix = Matrix4D::from_vector(vector1, vector2, vector3, vector4);
    assert_eq!(matrix, sample());
    assert_eq!(matrix.at(2), vector3);
}

#[test]
fn matrix4_index() {
    let matrix = sample();
    let mut expected: i64 = 1;
    for i in 0..4 {
        for j in 0..4 {
            assert_eq!(matrix.at(i).at(j), expected, "entry ({}, {})", i, j);
            expected += 1;
        }
    }
}

#[test]
fn matrix4_addition() {
    let matrix1 = sample();
    let matrix2 = matrix1.add(&matrix1);
    assert_rows(&matrix2, [[2, 4, 6, 8], [10, 12, 14, 16], [18, 20, 22, 24], [26, 28, 30, 32]]);
}

#[test]
fn matrix4_subtraction() {
    let matrix1 = sample();
    let matrix2 = Matrix4D::new(2, 4, 6, 8, 10, 12, 14, 16, 18, 20, 22, 24, 26, 28, 30, 32);
    assert_eq!(matrix2.sub(&matrix1), matrix1);
}

#[test]
fn matrix4_scalar_multiplication() {
    let matrix1 = sample();
    let matrix2 = matrix1.mul(5);
    assert_rows(&matrix2, [[5, 10, 15, 20], [25, 30, 35, 40], [45, 50, 55, 60], [65, 70, 75, 80]]);
    assert_eq!(matrix2, Matrix4D::scalar_mul(5, &matrix1));
}

#[test]
fn matrix4_multiplication() {
    let matrix1 = sample();
    let matrix2 = Matrix4D::new(2, 4, 6, 8, 10, 12, 14, 16, 18, 20, 22, 24, 26, 28, 30, 32);
    let expected = Matrix4D::new(
        180, 200, 220, 240, 404, 456, 508, 560, 628, 712, 796, 880, 852, 968, 1084, 1200,
    );
    assert_eq!(matrix1.mul_matrix(&matrix2), expected);
}

#[test]
fn matrix4_vector_multiplication() {
    let vector2 = sample().mul_vector(&Vector4D::new(2, 4, 6, 8));
    assert_eq!(vector2, Vector4D::new(60, 140, 220, 300));
}

#[test]
fn matrix4_determinant() {
    let a = Vector4D::new(1, 1, 1, -1);
    let b = Vector4D::new(1, 1, -1, 1);
    let c = Vector4D::new(1, -1, 1, 1);
    let d = Vector4D::new(-1, 1, 1, 1);
    assert_eq!(Matrix4D::from_vector(a, b, c, d).determinant(), -16);

    let matrix_with_zero_row = Matrix4D::new(0, 0, 0, 0, 1, 2, 3, 4, 5, 6, 7, 8, 9, 1, 11, 12);
    assert_eq!(matrix_with_zero_row.determinant(), 0);
    assert_eq!(Matrix4D::identity().determinant(), 1);
    let diagonal_matrix = Matrix4D::new(2, 0, 0, 0, 0, 2, 0, 0, 0, 0, 2, 0, 0, 0, 0, 2);
    assert_eq!(diagonal_matrix.determinant(), 16);
}

#[test]
fn matrix4_inversion() {
    let matrix = Matrix4D::new(1, 1, 1, 0, 0, 3, 1, 2, 1, 0, 2, 1, 2, 3, 1, 0);
    let (adjugate, det) = matrix.inverse().unwrap();
    assert_eq!(det, 4);
    assert_eq!(det, matrix.determinant());
    assert_eq!(adjugate.mul_matrix(&matrix), Matrix4D::identity().mul(det));
    assert_eq!(matrix.mul_matrix(&adjugate), Matrix4D::identity().mul(det));
}

#[test]
fn matrix4_inversion_of_diagonal() {
    let matrix = Matrix4D::new(2, 0, 0, 0, 0, 1, 0, 0, 0, 0, 1, 0, 0, 0, 0, 1);
    let (adjugate, det) = matrix.inverse().unwrap();
    assert_eq!(det, 2);
    assert_eq!(adjugate, Matrix4D::new(1, 0, 0, 0, 0, 2, 0, 0, 0, 0, 2, 0, 0, 0, 0, 2));
    assert!(matrix.integer_inverse().is_none());
}

#[test]
fn matrix4_integer_inversion() {
    let matrix = Matrix4D::new(1, 2, 0, 1, 2, 5, 3, 2, 1, 1, -2, 3, 0, 3, 10, 3);
    assert_eq!(matrix.determinant(), 1);
    let inverted_matrix = matrix.integer_inverse().unwrap();
    let expected = Matrix4D::new(
        -130, 56, 19, -13, 61, -26, -9, 6, -21, 9, 3, -2, 9, -4, -1, 1,
    );
    assert_eq!(inverted_matrix, expected);
    assert_eq!(inverted_matrix.mul_matrix(&matrix), Matrix4D::identity());
    assert_eq!(matrix.mul_matrix(&inverted_matrix), Matrix4D::identity());
    let shear = Matrix4D::new(1, 0, 0, 5, 0, 1, 0, -3, 0, 0, 1, 2, 0, 0, 0, -1);
    let inverse = shear.integer_inverse().unwrap();
    assert_eq!(inverse.mul_matrix(&shear), Matrix4D::identity());
    assert_eq!(shear.mul_matrix(&inverse), Matrix4D::identity());
}

#[test]
fn matrix4_singular_inversion() {
    assert!(sample().inverse().is_none());
    assert_eq!(sample().determinant(), 0);
    assert!(sample().integer_inverse().is_none());
}

#[test]
fn matrix4_text() {
    assert_eq!(
        Matrix4D::identity().to_string(),
        "[[1, 0, 0, 0], [0, 1, 0, 0], [0, 0, 1, 0], [0, 0, 0, 1]]"
    );
    assert_eq!(
        sample().mul(-1).to_string(),
        "[[-1, -2, -3, -4], [-5, -6, -7, -8], [-9, -10, -11, -12], [-13, -14, -15, -16]]"
    );
}

#[test]
fn matrix4_identity_is_neutral() {
    let m = sample();
    assert_eq!(Matrix4D::identity().mul_matrix(&m), m);
    assert_eq!(m.mul_matrix(&Matrix4D::identity()), m);
    assert_eq!(Matrix4D::identity().integer_inverse().unwrap(), Matrix4D::identity());
}
