//! Identities of the dot and cross products, from which the algebraic
//! facts about matrices are assembled.

use vstd::prelude::*;
use crate::algebra::{Vec3, Vec4, Mat3, lemma_mul_bounded};

verus! {

pub proof fn lemma_dot_comm(p: Vec3, q: Vec3)
    ensures
        p.dot(q) == q.dot(p),
{
    reveal(Vec3::dot);
    assert(q.x * p.x == p.x * q.x) by (nonlinear_arith);
    assert(q.y * p.y == p.y * q.y) by (nonlinear_arith);
    assert(q.z * p.z == p.z * q.z) by (nonlinear_arith);
}

/// The dot product distributes over sums and differences, on either side.
pub proof fn lemma_dot_linear(p: Vec3, q: Vec3, r: Vec3)
    ensures
        p.add(q).dot(r) == p.dot(r) + q.dot(r),
        p.sub(q).dot(r) == p.dot(r) - q.dot(r),
        r.dot(p.add(q)) == r.dot(p) + r.dot(q),
        r.dot(p.sub(q)) == r.dot(p) - r.dot(q),
{
    reveal(Vec3::dot);
    assert((p.x + q.x) * r.x == p.x * r.x + q.x * r.x) by (nonlinear_arith);
    assert((p.y + q.y) * r.y == p.y * r.y + q.y * r.y) by (nonlinear_arith);
    assert((p.z + q.z) * r.z == p.z * r.z + q.z * r.z) by (nonlinear_arith);
    assert((p.x - q.x) * r.x == p.x * r.x - q.x * r.x) by (nonlinear_arith);
    assert((p.y - q.y) * r.y == p.y * r.y - q.y * r.y) by (nonlinear_arith);
    assert((p.z - q.z) * r.z == p.z * r.z - q.z * r.z) by (nonlinear_arith);
    assert(r.x * (p.x + q.x) == r.x * p.x + r.x * q.x) by (nonlinear_arith);
    assert(r.x * p.x == p.x * r.x) by (nonlinear_arith);
    assert(r.x * q.x == q.x * r.x) by (nonlinear_arith);
    assert(r.y * (p.y + q.y) == r.y * p.y + r.y * q.y) by (nonlinear_arith);
    assert(r.y * p.y == p.y * r.y) by (nonlinear_arith);
    assert(r.y * q.y == q.y * r.y) by (nonlinear_arith);
    assert(r.z * (p.z + q.z) == r.z * p.z + r.z * q.z) by (nonlinear_arith);
    assert(r.z * p.z == p.z * r.z) by (nonlinear_arith);
    assert(r.z * q.z == q.z * r.z) by (nonlinear_arith);
    assert(r.x * (p.x - q.x) == r.x * p.x - r.x * q.x) by (nonlinear_arith);
    assert(r.y * (p.y - q.y) == r.y * p.y - r.y * q.y) by (nonlinear_arith);
    assert(r.z * (p.z - q.z) == r.z * p.z - r.z * q.z) by (nonlinear_arith);
}

/// A scalar factor comes out of the dot product on either side.
pub proof fn lemma_dot_scale(p: Vec3, q: Vec3, k: int)
    ensures
        p.scale(k).dot(q) == k * p.dot(q),
        q.dot(p.scale(k)) == k * q.dot(p),
{
    reveal(Vec3::dot);
    assert(p.x * k * q.x == k * p.x * q.x) by (nonlinear_arith);
    assert(p.y * k * q.y == k * p.y * q.y) by (nonlinear_arith);
    assert(p.z * k * q.z == k * p.z * q.z) by (nonlinear_arith);
    assert(k * (p.x * q.x + p.y * q.y + p.z * q.z) == k * (p.x * q.x) + k * (p.y * q.y) + k * (p.z
        * q.z)) by (nonlinear_arith);
    assert(k * (p.x * q.x) == k * p.x * q.x) by (nonlinear_arith);
    assert(k * (p.y * q.y) == k * p.y * q.y) by (nonlinear_arith);
    assert(k * (p.z * q.z) == k * p.z * q.z) by (nonlinear_arith);
    assert(q.x * (p.x * k) == k * p.x * q.x) by (nonlinear_arith);
    assert(q.y * (p.y * k) == k * p.y * q.y) by (nonlinear_arith);
    assert(q.z * (p.z * k) == k * p.z * q.z) by (nonlinear_arith);
    assert(k * (q.x * p.x + q.y * p.y + q.z * p.z) == k * (q.x * p.x) + k * (q.y * p.y) + k * (q.z
        * p.z)) by (nonlinear_arith);
    assert(k * (q.x * p.x) == k * p.x * q.x) by (nonlinear_arith);
    assert(k * (q.y * p.y) == k * p.y * q.y) by (nonlinear_arith);
    assert(k * (q.z * p.z) == k * p.z * q.z) by (nonlinear_arith);
}

/// The scalar triple product is invariant under cyclic permutation.
pub proof fn lemma_triple_cyclic(p: Vec3, q: Vec3, r: Vec3)
    ensures
        p.cross(q).dot(r) == q.cross(r).dot(p),
        p.cross(q).dot(r) == r.cross(p).dot(q),
{
    reveal(Vec3::dot);
    reveal(Vec3::cross);
    assert((p.y * q.z - p.z * q.y) * r.x == (p.y * q.z) * r.x - (p.z * q.y)
        * r.x) by (nonlinear_arith);
    assert((p.y * q.z) * r.x == p.y * q.z * r.x) by (nonlinear_arith);
    assert((p.z * q.y) * r.x == p.z * q.y * r.x) by (nonlinear_arith);
    assert((p.z * q.x - p.x * q.z) * r.y == (p.z * q.x) * r.y - (p.x * q.z)
        * r.y) by (nonlinear_arith);
    assert((p.z * q.x) * r.y == p.z * q.x * r.y) by (nonlinear_arith);
    assert((p.x * q.z) * r.y == p.x * q.z * r.y) by (nonlinear_arith);
    assert((p.x * q.y - p.y * q.x) * r.z == (p.x * q.y) * r.z - (p.y * q.x)
        * r.z) by (nonlinear_arith);
    assert((p.x * q.y) * r.z == p.x * q.y * r.z) by (nonlinear_arith);
    assert((p.y * q.x) * r.z == p.y * q.x * r.z) by (nonlinear_arith);
    assert((q.y * r.z - q.z * r.y) * p.x == (q.y * r.z) * p.x - (q.z * r.y)
        * p.x) by (nonlinear_arith);
    assert((q.y * r.z) * p.x == p.x * q.y * r.z) by (nonlinear_arith);
    assert((q.z * r.y) * p.x == p.x * q.z * r.y) by (nonlinear_arith);
    assert((q.z * r.x - q.x * r.z) * p.y == (q.z * r.x) * p.y - (q.x * r.z)
        * p.y) by (nonlinear_arith);
    assert((q.z * r.x) * p.y == p.y * q.z * r.x) by (nonlinear_arith);
    assert((q.x * r.z) * p.y == p.y * q.x * r.z) by (nonlinear_arith);
    assert((q.x * r.y - q.y * r.x) * p.z == (q.x * r.y) * p.z - (q.y * r.x)
        * p.z) by (nonlinear_arith);
    assert((q.x * r.y) * p.z == p.z * q.x * r.y) by (nonlinear_arith);
    assert((q.y * r.x) * p.z == p.z * q.y * r.x) by (nonlinear_arith);
    assert((p.y * q.z - p.z * q.y) * r.x == (p.y * q.z) * r.x - (p.z * q.y)
        * r.x) by (nonlinear_arith);
    assert((p.y * q.z) * r.x == p.y * q.z * r.x) by (nonlinear_arith);
    assert((p.z * q.y) * r.x == p.z * q.y * r.x) by (nonlinear_arith);
    assert((p.z * q.x - p.x * q.z) * r.y == (p.z * q.x) * r.y - (p.x * q.z)
        * r.y) by (nonlinear_arith);
    assert((p.z * q.x) * r.y == p.z * q.x * r.y) by (nonlinear_arith);
    assert((p.x * q.z) * r.y == p.x * q.z * r.y) by (nonlinear_arith);
    assert((p.x * q.y - p.y * q.x) * r.z == (p.x * q.y) * r.z - (p.y * q.x)
        * r.z) by (nonlinear_arith);
    assert((p.x * q.y) * r.z == p.x * q.y * r.z) by (nonlinear_arith);
    assert((p.y * q.x) * r.z == p.y * q.x * r.z) by (nonlinear_arith);
    assert((r.y * p.z - r.z * p.y) * q.x == (r.y * p.z) * q.x - (r.z * p.y)
        * q.x) by (nonlinear_arith);
    assert((r.y * p.z) * q.x == p.z * q.x * r.y) by (nonlinear_arith);
    assert((r.z * p.y) * q.x == p.y * q.x * r.z) by (nonlinear_arith);
    assert((r.z * p.x - r.x * p.z) * q.y == (r.z * p.x) * q.y - (r.x * p.z)
        * q.y) by (nonlinear_arith);
    assert((r.z * p.x) * q.y == p.x * q.y * r.z) by (nonlinear_arith);
    assert((r.x * p.z) * q.y == p.z * q.y * r.x) by (nonlinear_arith);
    assert((r.x * p.y - r.y * p.x) * q.z == (r.x * p.y) * q.z - (r.y * p.x)
        * q.z) by (nonlinear_arith);
    assert((r.x * p.y) * q.z == p.y * q.z * r.x) by (nonlinear_arith);
    assert((r.y * p.x) * q.z == p.x * q.z * r.y) by (nonlinear_arith);
}

/// Swapping the factors of the cross product negates the triple product.
pub proof fn lemma_triple_swap(p: Vec3, q: Vec3, r: Vec3)
    ensures
        p.cross(q).dot(r) == -q.cross(p).dot(r),
{
    reveal(Vec3::dot);
    reveal(Vec3::cross);
    assert((p.y * q.z - p.z * q.y) * r.x == (p.y * q.z) * r.x - (p.z * q.y)
        * r.x) by (nonlinear_arith);
    assert((p.y * q.z) * r.x == p.y * q.z * r.x) by (nonlinear_arith);
    assert((p.z * q.y) * r.x == p.z * q.y * r.x) by (nonlinear_arith);
    assert((p.z * q.x - p.x * q.z) * r.y == (p.z * q.x) * r.y - (p.x * q.z)
        * r.y) by (nonlinear_arith);
    assert((p.z * q.x) * r.y == p.z * q.x * r.y) by (nonlinear_arith);
    assert((p.x * q.z) * r.y == p.x * q.z * r.y) by (nonlinear_arith);
    assert((p.x * q.y - p.y * q.x) * r.z == (p.x * q.y) * r.z - (p.y * q.x)
        * r.z) by (nonlinear_arith);
    assert((p.x * q.y) * r.z == p.x * q.y * r.z) by (nonlinear_arith);
    assert((p.y * q.x) * r.z == p.y * q.x * r.z) by (nonlinear_arith);
    assert((q.y * p.z - q.z * p.y) * r.x == (q.y * p.z) * r.x - (q.z * p.y)
        * r.x) by (nonlinear_arith);
    assert((q.y * p.z) * r.x == p.z * q.y * r.x) by (nonlinear_arith);
    assert((q.z * p.y) * r.x == p.y * q.z * r.x) by (nonlinear_arith);
    assert((q.z * p.x - q.x * p.z) * r.y == (q.z * p.x) * r.y - (q.x * p.z)
        * r.y) by (nonlinear_arith);
    assert((q.z * p.x) * r.y == p.x * q.z * r.y) by (nonlinear_arith);
    assert((q.x * p.z) * r.y == p.z * q.x * r.y) by (nonlinear_arith);
    assert((q.x * p.y - q.y * p.x) * r.z == (q.x * p.y) * r.z - (q.y * p.x)
        * r.z) by (nonlinear_arith);
    assert((q.x * p.y) * r.z == p.y * q.x * r.z) by (nonlinear_arith);
    assert((q.y * p.x) * r.z == p.x * q.y * r.z) by (nonlinear_arith);
}

/// The cross product is orthogonal to both of its factors.
pub proof fn lemma_cross_orthogonal(p: Vec3, q: Vec3)
    ensures
        p.cross(q).dot(p) == 0,
        p.cross(q).dot(q) == 0,
{
    reveal(Vec3::dot);
    reveal(Vec3::cross);
    assert((p.y * q.z - p.z * q.y) * p.x == (p.y * q.z) * p.x - (p.z * q.y)
        * p.x) by (nonlinear_arith);
    assert((p.y * q.z) * p.x == p.x * p.y * q.z) by (nonlinear_arith);
    assert((p.z * q.y) * p.x == p.x * p.z * q.y) by (nonlinear_arith);
    assert((p.z * q.x - p.x * q.z) * p.y == (p.z * q.x) * p.y - (p.x * q.z)
        * p.y) by (nonlinear_arith);
    assert((p.z * q.x) * p.y == p.y * p.z * q.x) by (nonlinear_arith);
    assert((p.x * q.z) * p.y == p.x * p.y * q.z) by (nonlinear_arith);
    assert((p.x * q.y - p.y * q.x) * p.z == (p.x * q.y) * p.z - (p.y * q.x)
        * p.z) by (nonlinear_arith);
    assert((p.x * q.y) * p.z == p.x * p.z * q.y) by (nonlinear_arith);
    assert((p.y * q.x) * p.z == p.y * p.z * q.x) by (nonlinear_arith);
    assert((p.y * q.z - p.z * q.y) * q.x == (p.y * q.z) * q.x - (p.z * q.y)
        * q.x) by (nonlinear_arith);
    assert((p.y * q.z) * q.x == p.y * q.x * q.z) by (nonlinear_arith);
    assert((p.z * q.y) * q.x == p.z * q.x * q.y) by (nonlinear_arith);
    assert((p.z * q.x - p.x * q.z) * q.y == (p.z * q.x) * q.y - (p.x * q.z)
        * q.y) by (nonlinear_arith);
    assert((p.z * q.x) * q.y == p.z * q.x * q.y) by (nonlinear_arith);
    assert((p.x * q.z) * q.y == p.x * q.y * q.z) by (nonlinear_arith);
    assert((p.x * q.y - p.y * q.x) * q.z == (p.x * q.y) * q.z - (p.y * q.x)
        * q.z) by (nonlinear_arith);
    assert((p.x * q.y) * q.z == p.x * q.y * q.z) by (nonlinear_arith);
    assert((p.y * q.x) * q.z == p.y * q.x * q.z) by (nonlinear_arith);
}

/// The triple product of three rows is the determinant of the matrix they make.
pub proof fn lemma_triple_det(a: Vec3, b: Vec3, c: Vec3)
    ensures
        a.cross(b).dot(c) == Mat3::from_rows(a, b, c).det(),
{
    reveal(Vec3::dot);
    reveal(Vec3::cross);
    assert((a.y * b.z - a.z * b.y) * c.x == (a.y * b.z) * c.x - (a.z * b.y)
        * c.x) by (nonlinear_arith);
    assert((a.y * b.z) * c.x == a.y * b.z * c.x) by (nonlinear_arith);
    assert((a.z * b.y) * c.x == a.z * b.y * c.x) by (nonlinear_arith);
    assert((a.z * b.x - a.x * b.z) * c.y == (a.z * b.x) * c.y - (a.x * b.z)
        * c.y) by (nonlinear_arith);
    assert((a.z * b.x) * c.y == a.z * b.x * c.y) by (nonlinear_arith);
    assert((a.x * b.z) * c.y == a.x * b.z * c.y) by (nonlinear_arith);
    assert((a.x * b.y - a.y * b.x) * c.z == (a.x * b.y) * c.z - (a.y * b.x)
        * c.z) by (nonlinear_arith);
    assert((a.x * b.y) * c.z == a.x * b.y * c.z) by (nonlinear_arith);
    assert((a.y * b.x) * c.z == a.y * b.x * c.z) by (nonlinear_arith);
}
/// The triple product with a combination `k1 r1 - k2 r2` as last factor.
pub proof fn lemma_triple_expand(p: Vec3, q: Vec3, r1: Vec3, k1: int, r2: Vec3, k2: int)
    ensures
        p.cross(q).dot(r1.scale(k1).sub(r2.scale(k2))) == k1 * p.cross(q).dot(r1) - k2 * p.cross(
            q,
        ).dot(r2),
{
    lemma_dot_linear(r1.scale(k1), r2.scale(k2), p.cross(q));
    lemma_dot_scale(r1, p.cross(q), k1);
    lemma_dot_scale(r2, p.cross(q), k2);
}

/// A scalar factor comes out of a 4-vector dot product.
pub proof fn lemma_dot4_scale(p: Vec4, q: Vec4, k: int)
    ensures
        p.dot(q.scale(k)) == k * p.dot(q),
{
    assert(p.x * (q.x * k) == k * p.x * q.x) by (nonlinear_arith);
    assert(p.y * (q.y * k) == k * p.y * q.y) by (nonlinear_arith);
    assert(p.z * (q.z * k) == k * p.z * q.z) by (nonlinear_arith);
    assert(p.w * (q.w * k) == k * p.w * q.w) by (nonlinear_arith);
    assert(k * (p.x * q.x + p.y * q.y + p.z * q.z + p.w * q.w) == k * (p.x * q.x) + k * (p.y * q.y)
        + k * (p.z * q.z) + k * (p.w * q.w)) by (nonlinear_arith);
    assert(k * (p.x * q.x) == k * p.x * q.x) by (nonlinear_arith);
    assert(k * (p.y * q.y) == k * p.y * q.y) by (nonlinear_arith);
    assert(k * (p.z * q.z) == k * p.z * q.z) by (nonlinear_arith);
    assert(k * (p.w * q.w) == k * p.w * q.w) by (nonlinear_arith);
}

/// A scalar factor on the left comes out of a 4-vector dot product.
pub proof fn lemma_dot4_scale_left(p: Vec4, q: Vec4, k: int)
    ensures
        p.scale(k).dot(q) == k * p.dot(q),
{
    assert(p.x * k * q.x == k * p.x * q.x) by (nonlinear_arith);
    assert(p.y * k * q.y == k * p.y * q.y) by (nonlinear_arith);
    assert(p.z * k * q.z == k * p.z * q.z) by (nonlinear_arith);
    assert(p.w * k * q.w == k * p.w * q.w) by (nonlinear_arith);
    assert(k * (p.x * q.x + p.y * q.y + p.z * q.z + p.w * q.w) == k * (p.x * q.x) + k * (p.y * q.y)
        + k * (p.z * q.z) + k * (p.w * q.w)) by (nonlinear_arith);
    assert(k * (p.x * q.x) == k * p.x * q.x) by (nonlinear_arith);
    assert(k * (p.y * q.y) == k * p.y * q.y) by (nonlinear_arith);
    assert(k * (p.z * q.z) == k * p.z * q.z) by (nonlinear_arith);
    assert(k * (p.w * q.w) == k * p.w * q.w) by (nonlinear_arith);
}

/// Bounds on a dot product and on a cross product from bounds on the factors.
pub proof fn lemma_products_bounds(p: Vec3, q: Vec3, bp: int, bq: int)
    requires
        p.bounded(bp),
        q.bounded(bq),
    ensures
        -3 * (bp * bq) <= p.dot(q) <= 3 * (bp * bq),
        p.cross(q).bounded(2 * (bp * bq)),
{
    reveal(Vec3::dot);
    reveal(Vec3::cross);
    lemma_mul_bounded(p.x, q.x, bp, bq);
    lemma_mul_bounded(p.x, q.y, bp, bq);
    lemma_mul_bounded(p.x, q.z, bp, bq);
    lemma_mul_bounded(p.y, q.x, bp, bq);
    lemma_mul_bounded(p.y, q.y, bp, bq);
    lemma_mul_bounded(p.y, q.z, bp, bq);
    lemma_mul_bounded(p.z, q.x, bp, bq);
    lemma_mul_bounded(p.z, q.y, bp, bq);
    lemma_mul_bounded(p.z, q.z, bp, bq);
}

} // verus!
