//! Algebraic laws of the model, stated over all inputs and proved.

use vstd::prelude::*;
use crate::algebra::{Vec3, Vec4, Mat3, Mat4};
use crate::identities::{lemma_cross_orthogonal, lemma_dot_comm};
use crate::vector::{lemma_reject_orthogonal, lemma_reject_orthogonal4};

verus! {

/// Scalar multiplication of a vector commutes: `s v` and `v s` have the same
/// components.
pub proof fn law_scalar_mul_commutes(v: Vec3, s: int)
    ensures
        v.scale(s) == Vec3::new(s * v.x, s * v.y, s * v.z),
{
    assert(v.x * s == s * v.x && v.y * s == s * v.y && v.z * s == s * v.z) by (nonlinear_arith);
}

/// Scalar multiplication of a 4-vector commutes.
pub proof fn law_scalar_mul_commutes4(v: Vec4, s: int)
    ensures
        v.scale(s) == Vec4::new(s * v.x, s * v.y, s * v.z, s * v.w),
{
    assert(v.x * s == s * v.x && v.y * s == s * v.y && v.z * s == s * v.z && v.w * s == s * v.w)
        by (nonlinear_arith);
}

/// The cross product is orthogonal to both of its factors.
pub proof fn law_cross_orthogonal(a: Vec3, b: Vec3)
    ensures
        a.dot(a.cross(b)) == 0,
        b.dot(a.cross(b)) == 0,
{
    lemma_cross_orthogonal(a, b);
    lemma_dot_comm(a, a.cross(b));
    lemma_dot_comm(b, a.cross(b));
}

/// The projection of a vector on an axis and its rejection from it sum to the
/// vector: their numerators sum to the vector times their common divisor
/// `axis · axis`.
pub proof fn law_project_reject(v: Vec3, axis: Vec3)
    ensures
        v.project(axis).add(v.reject(axis)) == v.scale(axis.dot(axis)),
{
}

/// The rejection of a vector from an axis is orthogonal to the axis.
pub proof fn law_reject_orthogonal(v: Vec3, axis: Vec3)
    ensures
        v.reject(axis).dot(axis) == 0,
{
    lemma_reject_orthogonal(v, axis);
}

/// The projection and the rejection of a 4-vector sum to the vector: their
/// numerators sum to the vector times their common divisor `axis · axis`.
pub proof fn law_project_reject4(v: Vec4, axis: Vec4)
    ensures
        v.project(axis).add(v.reject(axis)) == v.scale(axis.dot(axis)),
{
}

/// The rejection of a 4-vector from an axis is orthogonal to the axis.
pub proof fn law_reject_orthogonal4(v: Vec4, axis: Vec4)
    ensures
        v.reject(axis).dot(axis) == 0,
{
    lemma_reject_orthogonal4(v, axis);
}

/// The identity matrices have determinant 1.
pub proof fn law_det_identity()
    ensures
        Mat3::identity().det() == 1,
        Mat4::identity().det() == 1,
{
}

/// A 3×3 matrix with a row of zeros has determinant 0.
pub proof fn law_det_zero_row3(m: Mat3, i: int)
    requires
        0 <= i < 3,
        m.row(i) == Vec3::zero(),
    ensures
        m.det() == 0,
{
}

/// A 4×4 matrix with a row of zeros has determinant 0.
pub proof fn law_det_zero_row4(m: Mat4, i: int)
    requires
        0 <= i < 4,
        m.row(i) == Vec4::new(0, 0, 0, 0),
    ensures
        m.det() == 0,
{
}

/// The matrix product of 3×3 matrices is associative.
pub proof fn law_mul_associative(a: Mat3, b: Mat3, c: Mat3)
    ensures
        a.mul(b.mul(c)) == a.mul(b).mul(c),
{
    let ab = a.mul(b);
    let bc = b.mul(c);
    lemma_dot_comm(c.col(0), b.r0);
    lemma_dot_comm(c.col(0), b.r1);
    lemma_dot_comm(c.col(0), b.r2);
    lemma_dot_comm(c.col(1), b.r0);
    lemma_dot_comm(c.col(1), b.r1);
    lemma_dot_comm(c.col(1), b.r2);
    lemma_dot_comm(c.col(2), b.r0);
    lemma_dot_comm(c.col(2), b.r1);
    lemma_dot_comm(c.col(2), b.r2);
    lemma_apply_adjoint(a.r0, b, c.col(0));
    lemma_dot_comm(bc.col(0), a.r0);
    lemma_dot_comm(c.col(0), ab.r0);
    lemma_apply_adjoint(a.r0, b, c.col(1));
    lemma_dot_comm(bc.col(1), a.r0);
    lemma_dot_comm(c.col(1), ab.r0);
    lemma_apply_adjoint(a.r0, b, c.col(2));
    lemma_dot_comm(bc.col(2), a.r0);
    lemma_dot_comm(c.col(2), ab.r0);
    lemma_apply_adjoint(a.r1, b, c.col(0));
    lemma_dot_comm(bc.col(0), a.r1);
    lemma_dot_comm(c.col(0), ab.r1);
    lemma_apply_adjoint(a.r1, b, c.col(1));
    lemma_dot_comm(bc.col(1), a.r1);
    lemma_dot_comm(c.col(1), ab.r1);
    lemma_apply_adjoint(a.r1, b, c.col(2));
    lemma_dot_comm(bc.col(2), a.r1);
    lemma_dot_comm(c.col(2), ab.r1);
    lemma_apply_adjoint(a.r2, b, c.col(0));
    lemma_dot_comm(bc.col(0), a.r2);
    lemma_dot_comm(c.col(0), ab.r2);
    lemma_apply_adjoint(a.r2, b, c.col(1));
    lemma_dot_comm(bc.col(1), a.r2);
    lemma_dot_comm(c.col(1), ab.r2);
    lemma_apply_adjoint(a.r2, b, c.col(2));
    lemma_dot_comm(bc.col(2), a.r2);
    lemma_dot_comm(c.col(2), ab.r2);
    assert(bc.col(0) == b.apply(c.col(0)));
    assert(bc.col(1) == b.apply(c.col(1)));
    assert(bc.col(2) == b.apply(c.col(2)));
}

/// `p · (b q) == (bᵀ p) · q`.
proof fn lemma_apply_adjoint(p: Vec3, b: Mat3, q: Vec3)
    ensures
        p.dot(b.apply(q)) == b.transpose().apply(p).dot(q),
{
    assert(b.col(0) == Vec3::new(b.r0.x, b.r1.x, b.r2.x));
    assert(b.col(1) == Vec3::new(b.r0.y, b.r1.y, b.r2.y));
    assert(b.col(2) == Vec3::new(b.r0.z, b.r1.z, b.r2.z));
    reveal(Vec3::dot);
    assert(p.x * (b.r0.x * q.x + b.r0.y * q.y + b.r0.z * q.z) == p.x * (b.r0.x * q.x) + p.x
        * (b.r0.y * q.y) + p.x * (b.r0.z * q.z)) by (nonlinear_arith);
    assert(p.x * (b.r0.x * q.x) == b.r0.x * p.x * q.x) by (nonlinear_arith);
    assert(p.x * (b.r0.y * q.y) == b.r0.y * p.x * q.y) by (nonlinear_arith);
    assert(p.x * (b.r0.z * q.z) == b.r0.z * p.x * q.z) by (nonlinear_arith);
    assert(p.y * (b.r1.x * q.x + b.r1.y * q.y + b.r1.z * q.z) == p.y * (b.r1.x * q.x) + p.y
        * (b.r1.y * q.y) + p.y * (b.r1.z * q.z)) by (nonlinear_arith);
    assert(p.y * (b.r1.x * q.x) == b.r1.x * p.y * q.x) by (nonlinear_arith);
    assert(p.y * (b.r1.y * q.y) == b.r1.y * p.y * q.y) by (nonlinear_arith);
    assert(p.y * (b.r1.z * q.z) == b.r1.z * p.y * q.z) by (nonlinear_arith);
    assert(p.z * (b.r2.x * q.x + b.r2.y * q.y + b.r2.z * q.z) == p.z * (b.r2.x * q.x) + p.z
        * (b.r2.y * q.y) + p.z * (b.r2.z * q.z)) by (nonlinear_arith);
    assert(p.z * (b.r2.x * q.x) == b.r2.x * p.z * q.x) by (nonlinear_arith);
    assert(p.z * (b.r2.y * q.y) == b.r2.y * p.z * q.y) by (nonlinear_arith);
    assert(p.z * (b.r2.z * q.z) == b.r2.z * p.z * q.z) by (nonlinear_arith);
    assert((b.r0.x * p.x + b.r1.x * p.y + b.r2.x * p.z) * q.x == (b.r0.x * p.x) * q.x + (b.r1.x
        * p.y) * q.x + (b.r2.x * p.z) * q.x) by (nonlinear_arith);
    assert((b.r0.x * p.x) * q.x == b.r0.x * p.x * q.x) by (nonlinear_arith);
    assert((b.r1.x * p.y) * q.x == b.r1.x * p.y * q.x) by (nonlinear_arith);
    assert((b.r2.x * p.z) * q.x == b.r2.x * p.z * q.x) by (nonlinear_arith);
    assert((b.r0.y * p.x + b.r1.y * p.y + b.r2.y * p.z) * q.y == (b.r0.y * p.x) * q.y + (b.r1.y
        * p.y) * q.y + (b.r2.y * p.z) * q.y) by (nonlinear_arith);
    assert((b.r0.y * p.x) * q.y == b.r0.y * p.x * q.y) by (nonlinear_arith);
    assert((b.r1.y * p.y) * q.y == b.r1.y * p.y * q.y) by (nonlinear_arith);
    assert((b.r2.y * p.z) * q.y == b.r2.y * p.z * q.y) by (nonlinear_arith);
    assert((b.r0.z * p.x + b.r1.z * p.y + b.r2.z * p.z) * q.z == (b.r0.z * p.x) * q.z + (b.r1.z
        * p.y) * q.z + (b.r2.z * p.z) * q.z) by (nonlinear_arith);
    assert((b.r0.z * p.x) * q.z == b.r0.z * p.x * q.z) by (nonlinear_arith);
    assert((b.r1.z * p.y) * q.z == b.r1.z * p.y * q.z) by (nonlinear_arith);
    assert((b.r2.z * p.z) * q.z == b.r2.z * p.z * q.z) by (nonlinear_arith);
}

} // verus!
