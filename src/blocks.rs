//! The 4×4 inverse by 3×3 blocks: the determinant and the adjugate computed
//! from cross and dot products of the upper parts of the columns and the last
//! row, and the proof that they are what they claim to be.

use vstd::prelude::*;
use crate::algebra::{Vec3, Vec4, Mat3, Mat4};
use crate::identities::{
    lemma_cross_orthogonal, lemma_dot_comm, lemma_dot_linear, lemma_dot_scale, lemma_triple_cyclic,
    lemma_triple_det, lemma_triple_expand, lemma_triple_swap,
};

verus! {

/// The determinant of a 4×4 matrix computed from blocks: with `a`, `b`, `c`,
/// `d` the upper parts of its columns and `(x, y, z, w)` its last row,
/// `s · v + t · u` for `s = a × b`, `t = c × d`, `u = y a - x b`, `v = w c - z d`.
pub(crate) open spec fn block_det(m: Mat4) -> int {
    let (a, b, c, d) = (m.upper(0), m.upper(1), m.upper(2), m.upper(3));
    let (x, y, z, w) = (m.r3.x, m.r3.y, m.r3.z, m.r3.w);
    a.cross(b).dot(c.scale(w).sub(d.scale(z))) + c.cross(d).dot(a.scale(y).sub(b.scale(x)))
}

/// The adjugate of a 4×4 matrix assembled from the same blocks as `block_det`.
pub(crate) open spec fn block_adjugate(m: Mat4) -> Mat4 {
    let (a, b, c, d) = (m.upper(0), m.upper(1), m.upper(2), m.upper(3));
    let (x, y, z, w) = (m.r3.x, m.r3.y, m.r3.z, m.r3.w);
    let s = a.cross(b);
    let t = c.cross(d);
    let u = a.scale(y).sub(b.scale(x));
    let v = c.scale(w).sub(d.scale(z));
    let r0 = b.cross(v).add(t.scale(y));
    let r1 = v.cross(a).sub(t.scale(x));
    let r2 = d.cross(u).add(s.scale(w));
    let r3 = u.cross(c).sub(s.scale(z));
    Mat4 {
        r0: Vec4::new(r0.x, r0.y, r0.z, -b.dot(t)),
        r1: Vec4::new(r1.x, r1.y, r1.z, a.dot(t)),
        r2: Vec4::new(r2.x, r2.y, r2.z, -d.dot(s)),
        r3: Vec4::new(r3.x, r3.y, r3.z, c.dot(s)),
    }
}

/// Expansion of the 4×4 determinant along its last row, in 3×3 minors of the
/// upper parts of the columns.
proof fn lemma_det4_last_row(m: Mat4)
    ensures
        m.det() == m.r3.w * Mat3::from_rows(m.upper(0), m.upper(1), m.upper(2)).det()
            - m.r3.z * Mat3::from_rows(m.upper(0), m.upper(1), m.upper(3)).det()
            + m.r3.y * Mat3::from_rows(m.upper(2), m.upper(3), m.upper(0)).det()
            - m.r3.x * Mat3::from_rows(m.upper(2), m.upper(3), m.upper(1)).det(),
{
    assert(m.upper(0) == Vec3::new(m.r0.x, m.r1.x, m.r2.x));
    assert(m.upper(1) == Vec3::new(m.r0.y, m.r1.y, m.r2.y));
    assert(m.upper(2) == Vec3::new(m.r0.z, m.r1.z, m.r2.z));
    assert(m.upper(3) == Vec3::new(m.r0.w, m.r1.w, m.r2.w));
    assert(m.r3.w * (m.r0.x * m.r1.y * m.r2.z + m.r1.x * m.r2.y * m.r0.z + m.r2.x * m.r0.y * m.r1.z
        - m.r0.x * m.r2.y * m.r1.z - m.r1.x * m.r0.y * m.r2.z - m.r2.x * m.r1.y * m.r0.z) == m.r3.w
        * (m.r0.x * m.r1.y * m.r2.z) + m.r3.w * (m.r1.x * m.r2.y * m.r0.z) + m.r3.w * (m.r2.x
        * m.r0.y * m.r1.z) - m.r3.w * (m.r0.x * m.r2.y * m.r1.z) - m.r3.w * (m.r1.x * m.r0.y
        * m.r2.z) - m.r3.w * (m.r2.x * m.r1.y * m.r0.z)) by (nonlinear_arith);
    assert(m.r3.w * (m.r0.x * m.r1.y * m.r2.z) == m.r0.x * m.r1.y * m.r2.z
        * m.r3.w) by (nonlinear_arith);
    assert(m.r3.w * (m.r1.x * m.r2.y * m.r0.z) == m.r0.z * m.r1.x * m.r2.y
        * m.r3.w) by (nonlinear_arith);
    assert(m.r3.w * (m.r2.x * m.r0.y * m.r1.z) == m.r0.y * m.r1.z * m.r2.x
        * m.r3.w) by (nonlinear_arith);
    assert(m.r3.w * (m.r0.x * m.r2.y * m.r1.z) == m.r0.x * m.r1.z * m.r2.y
        * m.r3.w) by (nonlinear_arith);
    assert(m.r3.w * (m.r1.x * m.r0.y * m.r2.z) == m.r0.y * m.r1.x * m.r2.z
        * m.r3.w) by (nonlinear_arith);
    assert(m.r3.w * (m.r2.x * m.r1.y * m.r0.z) == m.r0.z * m.r1.y * m.r2.x
        * m.r3.w) by (nonlinear_arith);
    assert(m.r3.z * (m.r0.x * m.r1.y * m.r2.w + m.r1.x * m.r2.y * m.r0.w + m.r2.x * m.r0.y * m.r1.w
        - m.r0.x * m.r2.y * m.r1.w - m.r1.x * m.r0.y * m.r2.w - m.r2.x * m.r1.y * m.r0.w) == m.r3.z
        * (m.r0.x * m.r1.y * m.r2.w) + m.r3.z * (m.r1.x * m.r2.y * m.r0.w) + m.r3.z * (m.r2.x
        * m.r0.y * m.r1.w) - m.r3.z * (m.r0.x * m.r2.y * m.r1.w) - m.r3.z * (m.r1.x * m.r0.y
        * m.r2.w) - m.r3.z * (m.r2.x * m.r1.y * m.r0.w)) by (nonlinear_arith);
    assert(m.r3.z * (m.r0.x * m.r1.y * m.r2.w) == m.r0.x * m.r1.y * m.r2.w
        * m.r3.z) by (nonlinear_arith);
    assert(m.r3.z * (m.r1.x * m.r2.y * m.r0.w) == m.r0.w * m.r1.x * m.r2.y
        * m.r3.z) by (nonlinear_arith);
    assert(m.r3.z * (m.r2.x * m.r0.y * m.r1.w) == m.r0.y * m.r1.w * m.r2.x
        * m.r3.z) by (nonlinear_arith);
    assert(m.r3.z * (m.r0.x * m.r2.y * m.r1.w) == m.r0.x * m.r1.w * m.r2.y
        * m.r3.z) by (nonlinear_arith);
    assert(m.r3.z * (m.r1.x * m.r0.y * m.r2.w) == m.r0.y * m.r1.x * m.r2.w
        * m.r3.z) by (nonlinear_arith);
    assert(m.r3.z * (m.r2.x * m.r1.y * m.r0.w) == m.r0.w * m.r1.y * m.r2.x
        * m.r3.z) by (nonlinear_arith);
    assert(m.r3.y * (m.r0.z * m.r1.w * m.r2.x + m.r1.z * m.r2.w * m.r0.x + m.r2.z * m.r0.w * m.r1.x
        - m.r0.z * m.r2.w * m.r1.x - m.r1.z * m.r0.w * m.r2.x - m.r2.z * m.r1.w * m.r0.x) == m.r3.y
        * (m.r0.z * m.r1.w * m.r2.x) + m.r3.y * (m.r1.z * m.r2.w * m.r0.x) + m.r3.y * (m.r2.z
        * m.r0.w * m.r1.x) - m.r3.y * (m.r0.z * m.r2.w * m.r1.x) - m.r3.y * (m.r1.z * m.r0.w
        * m.r2.x) - m.r3.y * (m.r2.z * m.r1.w * m.r0.x)) by (nonlinear_arith);
    assert(m.r3.y * (m.r0.z * m.r1.w * m.r2.x) == m.r0.z * m.r1.w * m.r2.x
        * m.r3.y) by (nonlinear_arith);
    assert(m.r3.y * (m.r1.z * m.r2.w * m.r0.x) == m.r0.x * m.r1.z * m.r2.w
        * m.r3.y) by (nonlinear_arith);
    assert(m.r3.y * (m.r2.z * m.r0.w * m.r1.x) == m.r0.w * m.r1.x * m.r2.z
        * m.r3.y) by (nonlinear_arith);
    assert(m.r3.y * (m.r0.z * m.r2.w * m.r1.x) == m.r0.z * m.r1.x * m.r2.w
        * m.r3.y) by (nonlinear_arith);
    assert(m.r3.y * (m.r1.z * m.r0.w * m.r2.x) == m.r0.w * m.r1.z * m.r2.x
        * m.r3.y) by (nonlinear_arith);
    assert(m.r3.y * (m.r2.z * m.r1.w * m.r0.x) == m.r0.x * m.r1.w * m.r2.z
        * m.r3.y) by (nonlinear_arith);
    assert(m.r3.x * (m.r0.z * m.r1.w * m.r2.y + m.r1.z * m.r2.w * m.r0.y + m.r2.z * m.r0.w * m.r1.y
        - m.r0.z * m.r2.w * m.r1.y - m.r1.z * m.r0.w * m.r2.y - m.r2.z * m.r1.w * m.r0.y) == m.r3.x
        * (m.r0.z * m.r1.w * m.r2.y) + m.r3.x * (m.r1.z * m.r2.w * m.r0.y) + m.r3.x * (m.r2.z
        * m.r0.w * m.r1.y) - m.r3.x * (m.r0.z * m.r2.w * m.r1.y) - m.r3.x * (m.r1.z * m.r0.w
        * m.r2.y) - m.r3.x * (m.r2.z * m.r1.w * m.r0.y)) by (nonlinear_arith);
    assert(m.r3.x * (m.r0.z * m.r1.w * m.r2.y) == m.r0.z * m.r1.w * m.r2.y
        * m.r3.x) by (nonlinear_arith);
    assert(m.r3.x * (m.r1.z * m.r2.w * m.r0.y) == m.r0.y * m.r1.z * m.r2.w
        * m.r3.x) by (nonlinear_arith);
    assert(m.r3.x * (m.r2.z * m.r0.w * m.r1.y) == m.r0.w * m.r1.y * m.r2.z
        * m.r3.x) by (nonlinear_arith);
    assert(m.r3.x * (m.r0.z * m.r2.w * m.r1.y) == m.r0.z * m.r1.y * m.r2.w
        * m.r3.x) by (nonlinear_arith);
    assert(m.r3.x * (m.r1.z * m.r0.w * m.r2.y) == m.r0.w * m.r1.z * m.r2.y
        * m.r3.x) by (nonlinear_arith);
    assert(m.r3.x * (m.r2.z * m.r1.w * m.r0.y) == m.r0.y * m.r1.w * m.r2.z
        * m.r3.x) by (nonlinear_arith);
}

/// Row 0 of the block adjugate against each column: the determinant on the
/// diagonal, zero elsewhere.
proof fn lemma_adjugate_row0(a: Vec3, b: Vec3, c: Vec3, d: Vec3, x: int, y: int, z: int, w: int)
    ensures ({
        let (s, t) = (a.cross(b), c.cross(d));
        let (u, v) = (a.scale(y).sub(b.scale(x)), c.scale(w).sub(d.scale(z)));
        let det = s.dot(v) + t.dot(u);
        let r = b.cross(v).add(t.scale(y));
        let e = -b.dot(t);
        &&& a.dot(r) + x * e == det
        &&& b.dot(r) + y * e == 0
        &&& c.dot(r) + z * e == 0
        &&& d.dot(r) + w * e == 0
    }),
{
    let (s, t) = (a.cross(b), c.cross(d));
    let (u, v) = (a.scale(y).sub(b.scale(x)), c.scale(w).sub(d.scale(z)));
    lemma_expand_block_det(a, b, c, d, x, y, z, w);
    lemma_row_against(b.cross(v), t, y, a, b, c, d);
    lemma_dot_comm(b, t);
    lemma_mul_neg(x, -b.dot(t), b.dot(t));
    lemma_mul_neg(y, -b.dot(t), b.dot(t));
    lemma_mul_neg(z, -b.dot(t), b.dot(t));
    lemma_mul_neg(w, -b.dot(t), b.dot(t));
    lemma_cross_orthogonal(c, d);
    lemma_mul_zero(y, t.dot(c));
    lemma_mul_zero(y, t.dot(d));
    // column 0
    lemma_triple_cyclic(a, b, v);
    // column 1
    lemma_cross_orthogonal(b, v);
    // column 2
    lemma_triple_cyclic(c, b, v);
    lemma_triple_expand(c, b, c, w, d, z);
    lemma_cross_orthogonal(c, b);
    lemma_mul_zero(w, c.cross(b).dot(c));
    lemma_triple_swap(c, b, d);
    lemma_mul_neg(z, c.cross(b).dot(d), b.cross(c).dot(d));
    lemma_triple_cyclic(b, c, d);
    // column 3
    lemma_triple_cyclic(d, b, v);
    lemma_triple_expand(d, b, c, w, d, z);
    lemma_cross_orthogonal(d, b);
    lemma_mul_zero(z, d.cross(b).dot(d));
    lemma_triple_cyclic(d, b, c);
}

/// Row 1 of the block adjugate against each column.
proof fn lemma_adjugate_row1(a: Vec3, b: Vec3, c: Vec3, d: Vec3, x: int, y: int, z: int, w: int)
    ensures ({
        let (s, t) = (a.cross(b), c.cross(d));
        let (u, v) = (a.scale(y).sub(b.scale(x)), c.scale(w).sub(d.scale(z)));
        let det = s.dot(v) + t.dot(u);
        let r = v.cross(a).sub(t.scale(x));
        let e = a.dot(t);
        &&& a.dot(r) + x * e == 0
        &&& b.dot(r) + y * e == det
        &&& c.dot(r) + z * e == 0
        &&& d.dot(r) + w * e == 0
    }),
{
    let (s, t) = (a.cross(b), c.cross(d));
    let (u, v) = (a.scale(y).sub(b.scale(x)), c.scale(w).sub(d.scale(z)));
    lemma_expand_block_det(a, b, c, d, x, y, z, w);
    lemma_row_against(v.cross(a), t, x, a, b, c, d);
    lemma_dot_comm(a, t);
    lemma_cross_orthogonal(c, d);
    lemma_mul_zero(x, t.dot(c));
    lemma_mul_zero(x, t.dot(d));
    // column 0
    lemma_cross_orthogonal(v, a);
    // column 1
    lemma_triple_cyclic(a, b, v);
    // column 2
    lemma_triple_cyclic(a, c, v);
    lemma_triple_expand(a, c, c, w, d, z);
    lemma_cross_orthogonal(a, c);
    lemma_mul_zero(w, a.cross(c).dot(c));
    lemma_triple_cyclic(a, c, d);
    // column 3
    lemma_triple_cyclic(a, d, v);
    lemma_triple_expand(a, d, c, w, d, z);
    lemma_cross_orthogonal(a, d);
    lemma_mul_zero(z, a.cross(d).dot(d));
    lemma_triple_swap(a, d, c);
    lemma_mul_neg(w, a.cross(d).dot(c), d.cross(a).dot(c));
    lemma_triple_cyclic(d, a, c);
}

/// Row 2 of the block adjugate against each column.
proof fn lemma_adjugate_row2(a: Vec3, b: Vec3, c: Vec3, d: Vec3, x: int, y: int, z: int, w: int)
    ensures ({
        let (s, t) = (a.cross(b), c.cross(d));
        let (u, v) = (a.scale(y).sub(b.scale(x)), c.scale(w).sub(d.scale(z)));
        let det = s.dot(v) + t.dot(u);
        let r = d.cross(u).add(s.scale(w));
        let e = -d.dot(s);
        &&& a.dot(r) + x * e == 0
        &&& b.dot(r) + y * e == 0
        &&& c.dot(r) + z * e == det
        &&& d.dot(r) + w * e == 0
    }),
{
    let (s, t) = (a.cross(b), c.cross(d));
    let (u, v) = (a.scale(y).sub(b.scale(x)), c.scale(w).sub(d.scale(z)));
    lemma_expand_block_det(a, b, c, d, x, y, z, w);
    lemma_row_against(d.cross(u), s, w, a, b, c, d);
    lemma_dot_comm(d, s);
    lemma_mul_neg(x, -d.dot(s), d.dot(s));
    lemma_mul_neg(y, -d.dot(s), d.dot(s));
    lemma_mul_neg(z, -d.dot(s), d.dot(s));
    lemma_mul_neg(w, -d.dot(s), d.dot(s));
    lemma_cross_orthogonal(a, b);
    lemma_mul_zero(w, s.dot(a));
    lemma_mul_zero(w, s.dot(b));
    // column 0
    lemma_triple_cyclic(a, d, u);
    lemma_triple_expand(a, d, a, y, b, x);
    lemma_cross_orthogonal(a, d);
    lemma_mul_zero(y, a.cross(d).dot(a));
    lemma_triple_swap(a, d, b);
    lemma_mul_neg(x, a.cross(d).dot(b), d.cross(a).dot(b));
    lemma_triple_cyclic(d, a, b);
    // column 1
    lemma_triple_cyclic(b, d, u);
    lemma_triple_expand(b, d, a, y, b, x);
    lemma_cross_orthogonal(b, d);
    lemma_mul_zero(x, b.cross(d).dot(b));
    lemma_triple_cyclic(b, d, a);
    // column 2
    lemma_triple_cyclic(c, d, u);
    // column 3
    lemma_cross_orthogonal(d, u);
}

/// Row 3 of the block adjugate against each column.
proof fn lemma_adjugate_row3(a: Vec3, b: Vec3, c: Vec3, d: Vec3, x: int, y: int, z: int, w: int)
    ensures ({
        let (s, t) = (a.cross(b), c.cross(d));
        let (u, v) = (a.scale(y).sub(b.scale(x)), c.scale(w).sub(d.scale(z)));
        let det = s.dot(v) + t.dot(u);
        let r = u.cross(c).sub(s.scale(z));
        let e = c.dot(s);
        &&& a.dot(r) + x * e == 0
        &&& b.dot(r) + y * e == 0
        &&& c.dot(r) + z * e == 0
        &&& d.dot(r) + w * e == det
    }),
{
    let (s, t) = (a.cross(b), c.cross(d));
    let (u, v) = (a.scale(y).sub(b.scale(x)), c.scale(w).sub(d.scale(z)));
    lemma_expand_block_det(a, b, c, d, x, y, z, w);
    lemma_row_against(u.cross(c), s, z, a, b, c, d);
    lemma_dot_comm(c, s);
    lemma_cross_orthogonal(a, b);
    lemma_mul_zero(z, s.dot(a));
    lemma_mul_zero(z, s.dot(b));
    // column 0
    lemma_triple_cyclic(c, a, u);
    lemma_triple_expand(c, a, a, y, b, x);
    lemma_cross_orthogonal(c, a);
    lemma_mul_zero(y, c.cross(a).dot(a));
    lemma_triple_cyclic(c, a, b);
    // column 1
    lemma_triple_cyclic(c, b, u);
    lemma_triple_expand(c, b, a, y, b, x);
    lemma_cross_orthogonal(c, b);
    lemma_mul_zero(x, c.cross(b).dot(b));
    lemma_triple_swap(c, b, a);
    lemma_mul_neg(y, c.cross(b).dot(a), b.cross(c).dot(a));
    lemma_triple_cyclic(b, c, a);
    // column 2
    lemma_cross_orthogonal(u, c);
    // column 3
    lemma_triple_cyclic(c, d, u);
}

proof fn lemma_mul_zero(k: int, p: int)
    by (nonlinear_arith)
    requires
        p == 0,
    ensures
        k * p == 0,
{
}

proof fn lemma_mul_neg(k: int, p: int, q: int)
    by (nonlinear_arith)
    requires
        p == -q,
    ensures
        k * p == -(k * q),
{
}

/// The block determinant expanded into triple products of the column blocks.
proof fn lemma_expand_block_det(a: Vec3, b: Vec3, c: Vec3, d: Vec3, x: int, y: int, z: int, w: int)
    ensures
        a.cross(b).dot(c.scale(w).sub(d.scale(z))) == w * a.cross(b).dot(c) - z * a.cross(b).dot(d),
        c.cross(d).dot(a.scale(y).sub(b.scale(x))) == y * c.cross(d).dot(a) - x * c.cross(d).dot(b),
{
    lemma_triple_expand(a, b, c, w, d, z);
    lemma_triple_expand(c, d, a, y, b, x);
}

/// A row of the form `p + k q` or `p - k q` against four vectors.
proof fn lemma_row_against(p: Vec3, q: Vec3, k: int, a: Vec3, b: Vec3, c: Vec3, d: Vec3)
    ensures
        a.dot(p.add(q.scale(k))) == p.dot(a) + k * q.dot(a),
        b.dot(p.add(q.scale(k))) == p.dot(b) + k * q.dot(b),
        c.dot(p.add(q.scale(k))) == p.dot(c) + k * q.dot(c),
        d.dot(p.add(q.scale(k))) == p.dot(d) + k * q.dot(d),
        a.dot(p.sub(q.scale(k))) == p.dot(a) - k * q.dot(a),
        b.dot(p.sub(q.scale(k))) == p.dot(b) - k * q.dot(b),
        c.dot(p.sub(q.scale(k))) == p.dot(c) - k * q.dot(c),
        d.dot(p.sub(q.scale(k))) == p.dot(d) - k * q.dot(d),
{
    lemma_row_against_one(p, q, k, a);
    lemma_row_against_one(p, q, k, b);
    lemma_row_against_one(p, q, k, c);
    lemma_row_against_one(p, q, k, d);
}

proof fn lemma_row_against_one(p: Vec3, q: Vec3, k: int, a: Vec3)
    ensures
        a.dot(p.add(q.scale(k))) == p.dot(a) + k * q.dot(a),
        a.dot(p.sub(q.scale(k))) == p.dot(a) - k * q.dot(a),
{
    lemma_dot_linear(p, q.scale(k), a);
    lemma_dot_scale(q, a, k);
    lemma_dot_comm(a, p);
    lemma_dot_comm(a, q);
}

/// A 4-vector dot product as a 3-vector dot product plus the last components.
proof fn lemma_dot4_split(p: Vec3, e: int, q: Vec3, f: int)
    ensures
        Vec4::new(p.x, p.y, p.z, e).dot(Vec4::new(q.x, q.y, q.z, f)) == p.dot(q) + e * f,
{
    reveal(Vec3::dot);
}

/// The block determinant is the determinant, and the block adjugate times the
/// matrix is the determinant times the identity.
pub(crate) proof fn lemma_block_inverse(m: Mat4)
    ensures
        block_det(m) == m.det(),
        block_adjugate(m).mul(m) == Mat4::identity().scale(m.det()),
{
    let (a, b, c, d) = (m.upper(0), m.upper(1), m.upper(2), m.upper(3));
    let (x, y, z, w) = (m.r3.x, m.r3.y, m.r3.z, m.r3.w);
    assert(a == Vec3::new(m.r0.x, m.r1.x, m.r2.x));
    assert(b == Vec3::new(m.r0.y, m.r1.y, m.r2.y));
    assert(c == Vec3::new(m.r0.z, m.r1.z, m.r2.z));
    assert(d == Vec3::new(m.r0.w, m.r1.w, m.r2.w));
    lemma_expand_block_det(a, b, c, d, x, y, z, w);
    lemma_triple_det(a, b, c);
    lemma_triple_det(a, b, d);
    lemma_triple_det(c, d, a);
    lemma_triple_det(c, d, b);
    lemma_det4_last_row(m);
    assert(block_det(m) == m.det());

    let (s, t) = (a.cross(b), c.cross(d));
    let (u, v) = (a.scale(y).sub(b.scale(x)), c.scale(w).sub(d.scale(z)));
    let r0 = b.cross(v).add(t.scale(y));
    let r1 = v.cross(a).sub(t.scale(x));
    let r2 = d.cross(u).add(s.scale(w));
    let r3 = u.cross(c).sub(s.scale(z));
    let adj = block_adjugate(m);
    lemma_adjugate_row0(a, b, c, d, x, y, z, w);
    lemma_adjugate_row1(a, b, c, d, x, y, z, w);
    lemma_adjugate_row2(a, b, c, d, x, y, z, w);
    lemma_adjugate_row3(a, b, c, d, x, y, z, w);
    assert(m.col(0) == Vec4::new(a.x, a.y, a.z, x));
    assert(m.col(1) == Vec4::new(b.x, b.y, b.z, y));
    assert(m.col(2) == Vec4::new(c.x, c.y, c.z, z));
    assert(m.col(3) == Vec4::new(d.x, d.y, d.z, w));
    lemma_dot4_split(a, x, r0, -b.dot(t));
    lemma_dot4_split(b, y, r0, -b.dot(t));
    lemma_dot4_split(c, z, r0, -b.dot(t));
    lemma_dot4_split(d, w, r0, -b.dot(t));
    lemma_dot4_split(a, x, r1, a.dot(t));
    lemma_dot4_split(b, y, r1, a.dot(t));
    lemma_dot4_split(c, z, r1, a.dot(t));
    lemma_dot4_split(d, w, r1, a.dot(t));
    lemma_dot4_split(a, x, r2, -d.dot(s));
    lemma_dot4_split(b, y, r2, -d.dot(s));
    lemma_dot4_split(c, z, r2, -d.dot(s));
    lemma_dot4_split(d, w, r2, -d.dot(s));
    lemma_dot4_split(a, x, r3, c.dot(s));
    lemma_dot4_split(b, y, r3, c.dot(s));
    lemma_dot4_split(c, z, r3, c.dot(s));
    lemma_dot4_split(d, w, r3, c.dot(s));
}

} // verus!
