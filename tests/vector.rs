use linalg::vector::{Vector3D, Vector4D};

#[test]
fn index_operator() {
    let vector = Vector3D::new(11, 22, 33);
    let mut sum: i64 = 0;
    for i in 0..3 {
        sum += vector.at(i);
    }
    assert_eq!(sum, 66);
}

#[test]
fn vector_scalar_multiplication() {
    let vector = Vector3D::new(33, 66, 77);
    let new_vector = vector.mul(22);
    assert_eq!(new_vector.x, 726);
    assert_eq!(new_vector.y, 1452);
    assert_eq!(new_vector.z, 1694);
    assert_eq!(new_vector, Vector3D::scalar_mul(22, &vector));
}

#[test]
fn scalar_division() {
    let vector = Vector3D::new(726, 1452, 1694);
    let new_vector = vector.div(22);
    assert_eq!(new_vector.x, 33);
    assert_eq!(new_vector.y, 66);
    assert_eq!(new_vector.z, 77);
}

#[test]
fn scalar_division_rounds_toward_zero() {
    let vector = Vector3D::new(7, -7, 6);
    assert_eq!(vector.div(2), Vector3D::new(3, -3, 3));
    assert_eq!(vector.div(-2), Vector3D::new(-3, 3, -3));
}

#[test]
fn negation() {
    let vector = Vector3D::new(22, 22, 22);
    let new_vector = vector.neg();
    assert_eq!(new_vector.x, -22);
    assert_eq!(new_vector.y, -22);
    assert_eq!(new_vector.z, -22);
}

#[test]
fn vector_addition() {
    let vector1 = Vector3D::new(11, 11, 11);
    let vector2 = Vector3D::new(22, 22, 22);
    let vector3 = vector1.add(&vector2);
    assert_eq!(vector3, Vector3D::new(33, 33, 33));
}

#[test]
fn vector_subtraction() {
    let vector1 = Vector3D::new(22, 22, 22);
    let vector2 = Vector3D::new(11, 11, 11);
    let vector3 = vector1.sub(&vector2);
    assert_eq!(vector3, Vector3D::new(11, 11, 11));
}

#[test]
fn dot_product() {
    let vector1 = Vector3D::new(22, 22, 22);
    let vector2 = Vector3D::new(11, 11, 11);
    assert_eq!(vector1.dot(&vector2), 726);
    assert_eq!(vector1.dot(&vector1), 3 * 22 * 22);
}

#[test]
fn cross_product() {
    let vector1 = Vector3D::new(1, 2, 3);
    let vector2 = Vector3D::new(4, 5, 6);
    let product = vector1.cross(&vector2);
    assert_eq!(product, Vector3D::new(-3, 6, -3));

    let vector1 = Vector3D::new(1, 1, 1);
    let vector2 = Vector3D::new(-1, -1, -1);
    let vector3 = Vector3D::new(5, 5, 5);
    let zero_vector = Vector3D::new(0, 0, 0);
    assert_eq!(vector1.cross(&vector2), zero_vector);
    assert_eq!(vector1.cross(&vector3), zero_vector);
    assert_eq!(vector1.cross(&vector1), zero_vector);

    let vector1 = Vector3D::new(15, -15, 15);
    let vector2 = Vector3D::new(-23, 33, -56);
    let product = vector1.cross(&vector2);
    assert_eq!(vector1.dot(&product), 0);
    assert_eq!(vector2.dot(&product), 0);
}

#[test]
fn cross_product_is_right_handed() {
    let i = Vector3D::new(1, 0, 0);
    let j = Vector3D::new(0, 1, 0);
    let k = Vector3D::new(0, 0, 1);
    assert_eq!(i.cross(&j), k);
    assert_eq!(j.cross(&i), k.neg());
}

#[test]
fn projection() {
    let vector1 = Vector3D::new(7, 7, 7);
    let i = Vector3D::new(1, 0, 0);
    let j = Vector3D::new(0, 1, 0);
    let k = Vector3D::new(0, 0, 1);
    let zero_vector = Vector3D::new(0, 0, 0);
    // Unit axes have divisor 1: the numerator is the projection itself.
    assert_eq!(vector1.project(&i), (Vector3D::new(7, 0, 0), 1));
    assert_eq!(vector1.x, vector1.project(&i).0.x);
    assert_eq!(vector1.y, vector1.project(&j).0.y);
    assert_eq!(vector1.z, vector1.project(&k).0.z);
    assert_eq!((i, 1), i.project(&i));
    assert_eq!((zero_vector, 1), i.project(&j));
}

#[test]
fn projection_with_divisor() {
    // (5, 1, 0) · (2, 0, 0) = 10 and (2, 0, 0) · (2, 0, 0) = 4: the projection is
    // (20, 0, 0) / 4 = (5, 0, 0) and the rejection (0, 4, 0) / 4 = (0, 1, 0).
    let v = Vector3D::new(5, 1, 0);
    let axis = Vector3D::new(2, 0, 0);
    let (p, d) = v.project(&axis);
    assert_eq!((p, d), (Vector3D::new(20, 0, 0), 4));
    assert_eq!(p.div(d), Vector3D::new(5, 0, 0));
    let (r, e) = v.reject(&axis);
    assert_eq!((r, e), (Vector3D::new(0, 4, 0), 4));
    assert_eq!(r.div(e), Vector3D::new(0, 1, 0));
    assert_eq!(p.div(d).add(&r.div(e)), v);
    let w = Vector3D::new(1, 1, 0);
    let diagonal = Vector3D::new(1, 1, 1);
    let (r, e) = w.reject(&diagonal);
    assert_eq!((r, e), (Vector3D::new(1, 1, -2), 3));
    assert_eq!(r.dot(&diagonal), 0);
    assert_eq!(w.project(&Vector3D::new(0, 0, 0)), (Vector3D::new(0, 0, 0), 0));
}

#[test]
fn rejection() {
    let vector1 = Vector3D::new(7, 7, 7);
    let i = Vector3D::new(1, 0, 0);
    let j = Vector3D::new(0, 1, 0);
    let k = Vector3D::new(0, 0, 1);
    let zero_vector = Vector3D::new(0, 0, 0);
    let (rejected_i, d) = vector1.reject(&i);
    assert_eq!(d, 1);
    assert_eq!(rejected_i.x, 0);
    assert_eq!(rejected_i.y, 7);
    assert_eq!(rejected_i.z, 7);
    assert_eq!(0, vector1.reject(&k).0.z);
    assert_eq!(i.reject(&i), (zero_vector, 1));
    assert_eq!(i.reject(&j), (i, 1));
    assert_eq!(vector1, vector1.project(&i).0.add(&vector1.reject(&i).0));
}

#[test]
fn vector4_arithmetic() {
    let a = Vector4D::new(1, 2, 3, 4);
    let b = Vector4D::new(5, 6, 7, 8);
    assert_eq!(a.add(&b), Vector4D::new(6, 8, 10, 12));
    assert_eq!(b.sub(&a), Vector4D::new(4, 4, 4, 4));
    assert_eq!(a.neg(), Vector4D::new(-1, -2, -3, -4));
    assert_eq!(a.mul(3), Vector4D::new(3, 6, 9, 12));
    assert_eq!(Vector4D::scalar_mul(3, &a), a.mul(3));
    assert_eq!(a.dot(&b), 70);
    assert_eq!(a.at(0) + a.at(1) + a.at(2) + a.at(3), 10);
}

#[test]
fn vector4_division_projection_rejection() {
    let a = Vector4D::new(9, -9, 4, 0);
    assert_eq!(a.div(2), Vector4D::new(4, -4, 2, 0));
    let axis = Vector4D::new(0, 0, 0, 3);
    let v = Vector4D::new(1, 2, 3, 7);
    // v · axis = 21 and axis · axis = 9: both results are scaled by 9.
    let (p, d) = v.project(&axis);
    let (r, e) = v.reject(&axis);
    assert_eq!((p, d), (Vector4D::new(0, 0, 0, 63), 9));
    assert_eq!((r, e), (Vector4D::new(9, 18, 27, 0), 9));
    assert_eq!(r.dot(&axis), 0);
    assert_eq!(p.add(&r), v.mul(d));
    assert_eq!(p.div(d), Vector4D::new(0, 0, 0, 7));
    assert_eq!(r.div(e), Vector4D::new(1, 2, 3, 0));
}
