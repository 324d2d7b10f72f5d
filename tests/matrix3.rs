use linalg::{Matrix3D, Vector3D};

fn sample() -> Matrix3D {
    Matrix3D::new(1, 2, 3, 4, 5, 6, 7, 8, 9)
}

fn assert_rows(m: &Matrix3D, expected: [[i64; 3]; 3]) {
    for i in 0..3 {
        for j in 0..3 {
            assert_eq!(m.at(i).at(j), expected[i][j], "entry ({}, {})", i, j);
        }
    }
}

#[test]
fn matrix_constructor() {
    assert_rows(&sample(), [[1, 2, 3], [4, 5, 6], [7, 8, 9]]);
}

#[test]
fn matrix_vector_constructor() {
    let vector1 = Vector3D::new(1, 2, 3);
    let vector2 = Vector3D::new(4, 5, 6);
    let vector3 = Vector3D::new(7, 8, 9);
    let matrix = Matrix3D::from_vector(vector1, vector2, vector3);
    assert_rows(&matrix, [[1, 2, 3], [4, 5, 6], [7, 8, 9]]);
    assert_eq!(matrix, sample());
}

#[test]
fn matrix_index() {
    let matrix = sample();
    assert_eq!(matrix.at(0), Vector3D::new(1, 2, 3));
    assert_eq!(matrix.at(1), Vector3D::new(4, 5, 6));
    assert_eq!(matrix.at(2), Vector3D::new(7, 8, 9));
}

#[test]
fn matrix_matrix_addition() {
    let matrix1 = sample();
    let matrix2 = matrix1.add(&matrix1);
    assert_rows(&matrix2, [[2, 4, 6], [8, 10, 12], [14, 16, 18]]);
}

#[test]
fn matrix_matrix_subtraction() {
    let matrix1 = sample();
    let matrix2 = Matrix3D::new(2, 4, 6, 8, 10, 12, 14, 16, 18);
    let matrix3 = matrix2.sub(&matrix1);
    assert_rows(&matrix3, [[1, 2, 3], [4, 5, 6], [7, 8, 9]]);
}

#[test]
fn matrix_scalar_multiplication() {
    let matrix1 = sample();
    let matrix2 = matrix1.mul(5);
    assert_rows(&matrix2, [[5, 10, 15], [20, 25, 30], [35, 40, 45]]);
    assert_eq!(matrix2, Matrix3D::scalar_mul(5, &matrix1));
}

#[test]
fn matrix_matrix_multiplication() {
    let matrix1 = sample();
    let matrix2 = Matrix3D::new(2, 4, 6, 8, 10, 12, 14, 16, 18);
    let matrix3 = matrix1.mul_matrix(&matrix2);
    assert_eq!(matrix3, Matrix3D::new(60, 72, 84, 132, 162, 192, 204, 252, 300));
}

#[test]
fn matrix_matrix_vector_multiplication() {
    let vector2 = sample().mul_vector(&Vector3D::new(2, 4, 6));
    assert_eq!(vector2.at(0), 1 * 2 + 2 * 4 + 3 * 6);
    assert_eq!(vector2.at(1), 4 * 2 + 5 * 4 + 6 * 6);
    assert_eq!(vector2.at(2), 7 * 2 + 8 * 4 + 9 * 6);
}

#[test]
fn matrix_determinant() {
    let matrix = Matrix3D::new(3, 5, 6, 4, 5, 6, 7, 8, 9);
    assert_eq!(matrix.determinant(), 3);
    let matrix_with_zero_row = Matrix3D::new(0, 0, 0, 1, 2, 3, 4, 5, 6);
    assert_eq!(matrix_with_zero_row.determinant(), 0);
    assert_eq!(Matrix3D::identity().determinant(), 1);
    let diagonal_matrix = Matrix3D::new(2, 0, 0, 0, 2, 0, 0, 0, 2);
    assert_eq!(diagonal_matrix.determinant(), 8);
}

#[test]
fn matrix_matrix_inversion() {
    let matrix = Matrix3D::new(1, 2, 3, 5, 5, 6, 7, 8, 9);
    let (adjugate, det) = matrix.inverse().unwrap();
    assert_eq!(det, 6);
    assert_eq!(det, matrix.determinant());
    // The inverse is the adjugate divided by the determinant.
    assert_eq!(adjugate.mul_matrix(&matrix), Matrix3D::identity().mul(det));
    assert_eq!(matrix.mul_matrix(&adjugate), Matrix3D::identity().mul(det));
    assert_eq!(adjugate, Matrix3D::new(-3, 6, -3, -3, -12, 9, 5, 6, -5));
}

#[test]
fn inversion_of_diagonal() {
    let matrix = Matrix3D::new(2, 0, 0, 0, 1, 0, 0, 0, 1);
    let (adjugate, det) = matrix.inverse().unwrap();
    assert_eq!(det, 2);
    assert_eq!(adjugate, Matrix3D::new(1, 0, 0, 0, 2, 0, 0, 0, 2));
    assert!(matrix.integer_inverse().is_none());
}

#[test]
fn integer_inversion() {
    let matrix = Matrix3D::new(2, 3, 1, 1, 2, 1, 1, 1, 1);
    let inverted_matrix = matrix.integer_inverse().unwrap();
    assert_eq!(inverted_matrix, Matrix3D::new(1, -2, 1, 0, 1, -1, -1, 1, 1));
    assert_eq!(inverted_matrix.mul_matrix(&matrix), Matrix3D::identity());
    assert_eq!(matrix.mul_matrix(&inverted_matrix), Matrix3D::identity());
    let swap = Matrix3D::new(0, 1, 0, 1, 0, 0, 0, 0, 1);
    assert_eq!(swap.determinant(), -1);
    assert_eq!(swap.integer_inverse().unwrap(), swap);
}

#[test]
fn singular_inversion() {
    assert!(sample().inverse().is_none());
    assert!(Matrix3D::new(0, 0, 0, 1, 2, 3, 4, 5, 6).inverse().is_none());
    assert!(sample().integer_inverse().is_none());
}

#[test]
fn matrix_text() {
    assert_eq!(sample().to_string(), "[[1, 2, 3], [4, 5, 6], [7, 8, 9]]");
    let m = Matrix3D::new(-10, 0, 305, i64::MIN, i64::MAX, -1, 0, 0, 0);
    assert_eq!(
        m.to_string(),
        "[[-10, 0, 305], [-9223372036854775808, 9223372036854775807, -1], [0, 0, 0]]"
    );
}

#[test]
fn rotation() {
    let matrix = Matrix3D::identity();
    // A quarter turn: cosine 0, sine 1.
    let x_rot = Matrix3D::make_rotation_x(0, 1);
    assert_eq!(x_rot.mul_matrix(&matrix), Matrix3D::new(1, 0, 0, 0, 0, -1, 0, 1, 0));
    let y_rot = Matrix3D::make_rotation_y(0, 1);
    assert_eq!(y_rot.mul_matrix(&matrix), Matrix3D::new(0, 0, 1, 0, 1, 0, -1, 0, 0));
    let z_rot = Matrix3D::make_rotation_z(0, 1);
    assert_eq!(z_rot.mul_matrix(&matrix), Matrix3D::new(0, -1, 0, 1, 0, 0, 0, 0, 1));
    let a_rot = Matrix3D::make_rotation(0, 1, Vector3D::new(0, 0, 1));
    assert_eq!(a_rot, z_rot);
    assert_eq!(a_rot.mul_vector(&matrix.at(0)), Vector3D::new(0, 1, 0));
    let half_turn = Matrix3D::make_rotation(-1, 0, Vector3D::new(1, 0, 0));
    assert_eq!(half_turn, Matrix3D::new(1, 0, 0, 0, -1, 0, 0, 0, -1));
}

#[test]
fn reflection() {
    let v = Vector3D::new(7, 0, 7);
    let a = Vector3D::new(0, 0, 1);
    let m_reflect = Matrix3D::make_reflection(a);
    assert_eq!(m_reflect.mul_vector(&v), Vector3D::new(7, 0, -7));
}

#[test]
fn involution() {
    let v = Vector3D::new(7, 0, 7);
    let a = Vector3D::new(0, 0, 1);
    let m_involution = Matrix3D::make_involution(a);
    assert_eq!(m_involution.mul_vector(&v), Vector3D::new(-7, 0, 7));
}

#[test]
fn scale() {
    let a = Matrix3D::new(1, 1, 1, 1, 1, 1, 1, 1, 1);
    let s = Matrix3D::make_scale(2, 3, 4);
    assert_eq!(s.mul_matrix(&a), Matrix3D::new(2, 2, 2, 3, 3, 3, 4, 4, 4));
    let ds = Matrix3D::make_directional_scale(2, Vector3D::new(1, 0, 0));
    assert_eq!(ds.mul_matrix(&a), Matrix3D::new(2, 2, 2, 1, 1, 1, 1, 1, 1));
}

#[test]
fn skew() {
    let a = Vector3D::new(1, 0, 0);
    let b = Vector3D::new(0, 1, 0);
    // Tangent 1: a skew by 45 degrees.
    let skew = Matrix3D::make_skew(1, a, b);
    let m = Matrix3D::new(1, 1, 1, 2, 2, 2, 3, 3, 3);
    assert_eq!(skew.mul_matrix(&m), Matrix3D::new(3, 3, 3, 2, 2, 2, 3, 3, 3));
}

#[test]
fn column_major_walk() {
    let mut walk = sample().into_iter();
    let mut seen: Vec<i64> = Vec::new();
    while let Some(v) = walk.next() {
        seen.push(v);
    }
    assert_eq!(seen, vec![1, 4, 7, 2, 5, 8, 3, 6, 9]);
    assert_eq!(walk.next(), None);
}
