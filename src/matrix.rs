//! Executable 3×3 and 4×4 matrices with `i64` entries, stored as rows.

use vstd::prelude::*;
use crate::algebra::{Vec3, Vec4, Mat3, Mat4, lemma_mul_bounded};
use crate::identities::{
    lemma_cross_orthogonal, lemma_dot4_scale, lemma_dot4_scale_left, lemma_dot_comm, lemma_dot_scale,
        lemma_products_bounds,
    lemma_triple_cyclic, lemma_triple_det,
};
use crate::blocks::{block_adjugate, lemma_block_inverse};
use crate::adjugate_right::lemma_block_adjugate_right;
use crate::vector::{Vector3D, Vector4D, PRODUCT_BOUND, lemma_products_bounded};

verus! {

/// Entries of the operands of a 4×4 determinant or inverse lie within this
/// bound, so that no intermediate product of four entries leaves `i64`.
pub const QUARTIC_BOUND: i64 = 0x4000;

/// Entries of the operands of a 3×3 determinant or inverse lie within this
/// bound, so that no intermediate product of three entries leaves `i64`.
pub const CUBIC_BOUND: i64 = 0x8_0000;

/// A 3×3 matrix of `i64` entries, held as three row vectors.
#[derive(Clone, Copy, Debug)]
pub struct Matrix3D {
    n: [Vector3D; 3],
}

impl View for Matrix3D {
    type V = Mat3;

    closed spec fn view(&self) -> Mat3 {
        Mat3 { r0: self.n@[0]@, r1: self.n@[1]@, r2: self.n@[2]@ }
    }
}

impl PartialEq for Matrix3D {
    fn eq(&self, other: &Matrix3D) -> (r: bool) {
        self.n[0] == other.n[0] && self.n[1] == other.n[1] && self.n[2] == other.n[2]
    }
}

impl vstd::std_specs::cmp::PartialEqSpecImpl for Matrix3D {
    open spec fn obeys_eq_spec() -> bool {
        true
    }

    open spec fn eq_spec(&self, other: &Matrix3D) -> bool {
        self@ == other@
    }
}

/// Bounds on the partial products of three factors bounded by `CUBIC_BOUND`.
proof fn lemma_cubic_term(p: int, q: int, r: int)
    requires
        -0x8_0000 <= p <= 0x8_0000,
        -0x8_0000 <= q <= 0x8_0000,
        -0x8_0000 <= r <= 0x8_0000,
    ensures
        -0x40_0000_0000 <= p * q <= 0x40_0000_0000,
        -0x200_0000_0000_0000 <= p * q * r <= 0x200_0000_0000_0000,
{
    lemma_mul_bounded(p, q, 0x8_0000, 0x8_0000);
    lemma_mul_bounded(p * q, r, 0x40_0000_0000, 0x8_0000);
}

impl Matrix3D {
    /// The determinant, by the six-term expansion.
    pub fn determinant(&self) -> (r: i64)
        requires
            self@.bounded(CUBIC_BOUND as int),
        ensures
            r == self@.det(),
    {
        let a = self.n[0];
        let b = self.n[1];
        let c = self.n[2];
        proof {
            lemma_cubic_term(a.x as int, b.y as int, c.z as int);
            lemma_cubic_term(a.y as int, b.z as int, c.x as int);
            lemma_cubic_term(a.z as int, b.x as int, c.y as int);
            lemma_cubic_term(a.x as int, b.z as int, c.y as int);
            lemma_cubic_term(a.y as int, b.x as int, c.z as int);
            lemma_cubic_term(a.z as int, b.y as int, c.x as int);
        }
        a.x * b.y * c.z + a.y * b.z * c.x + a.z * b.x * c.y - a.x * b.z * c.y - a.y * b.x * c.z
            - a.z * b.y * c.x
    }

    /// The matrix with rows `(n00, n01, n02)`, `(n10, n11, n12)`, `(n20, n21, n22)`.
    pub fn new(
        n00: i64, n01: i64, n02: i64,
        n10: i64, n11: i64, n12: i64,
        n20: i64, n21: i64, n22: i64,
    ) -> (r: Self)
        ensures
            r@ == Mat3::from_rows(
                Vec3::new(n00 as int, n01 as int, n02 as int),
                Vec3::new(n10 as int, n11 as int, n12 as int),
                Vec3::new(n20 as int, n21 as int, n22 as int),
            ),
    {
        let n1 = Vector3D::new(n00, n01, n02);
        let n2 = Vector3D::new(n10, n11, n12);
        let n3 = Vector3D::new(n20, n21, n22);
        Self { n: [n1, n2, n3] }
    }

    /// The matrix whose rows are `a`, `b` and `c`, in that order.
    pub fn from_vector(a: Vector3D, b: Vector3D, c: Vector3D) -> (r: Self)
        ensures
            r@ == Mat3::from_rows(a@, b@, c@),
    {
        Self { n: [a, b, c] }
    }

    pub fn identity() -> (r: Self)
        ensures
            r@ == Mat3::identity(),
    {
        Matrix3D::new(1, 0, 0, 0, 1, 0, 0, 0, 1)
    }

    /// Row `index`.
    pub fn at(&self, index: usize) -> (r: Vector3D)
        requires
            index < 3,
        ensures
            r@ == self@.row(index as int),
    {
        self.n[index]
    }

    /// The inverse in exact integer form: the adjugate and the determinant,
    /// of which the inverse is the quotient; `None` exactly when the
    /// determinant is 0. With rows `a`, `b`, `c`, the columns of the adjugate
    /// are `b × c`, `c × a` and `a × b`, and the determinant is the triple
    /// product `(a × b) · c` computed from the same cross products.
    pub fn inverse(&self) -> (r: Option<(Matrix3D, i64)>)
        requires
            self@.bounded(CUBIC_BOUND as int),
        ensures
            r is Some <==> self@.det() != 0,
            r matches Some((adj, d)) ==> {
                &&& d == self@.det()
                &&& adj@.mul(self@) == Mat3::identity().scale(d as int)
                &&& self@.mul(adj@) == Mat3::identity().scale(d as int)
                &&& adj@.bounded(2 * (CUBIC_BOUND * CUBIC_BOUND))
            },
    {
        let a = self.n[0];
        let b = self.n[1];
        let c = self.n[2];
        let ghost q = CUBIC_BOUND as int;
        proof {
            lemma_products_bounds(b@, c@, q, q);
            lemma_products_bounds(c@, a@, q, q);
            lemma_products_bounds(a@, b@, q, q);
        }
        let r0 = b.cross(&c);
        let r1 = c.cross(&a);
        let r2 = a.cross(&b);
        proof {
            lemma_mul_bounded(r2.x as int, c.x as int, 2 * (q * q), q);
            lemma_mul_bounded(r2.y as int, c.y as int, 2 * (q * q), q);
            lemma_mul_bounded(r2.z as int, c.z as int, 2 * (q * q), q);
            lemma_triple_det(a@, b@, c@);
            reveal(Vec3::dot);
        }
        // The triple product (a × b) · c; its factors exceed the bound of `dot`.
        let det = r2.x * c.x + r2.y * c.y + r2.z * c.z;
        if det == 0 {
            return None;
        }
        let adjugate = Matrix3D::new(r0.x, r1.x, r2.x, r0.y, r1.y, r2.y, r0.z, r1.z, r2.z);
        proof {
            lemma_adjugate3(self@, adjugate@);
        }
        Some((adjugate, det))
    }

    /// The inverse, when it has integer entries: that is exactly when the
    /// determinant is 1 or -1, and the inverse is then the adjugate times
    /// the determinant.
    pub fn integer_inverse(&self) -> (r: Option<Matrix3D>)
        requires
            self@.bounded(CUBIC_BOUND as int),
        ensures
            r is Some <==> (self@.det() == 1 || self@.det() == -1),
            r matches Some(inv) ==> inv@.mul(self@) == Mat3::identity() && self@.mul(inv@)
                == Mat3::identity(),
    {
        match self.inverse() {
            Some((adjugate, det)) => {
                if det != 1 && det != -1 {
                    return None;
                }
                proof {
                    lemma_unit_scaled_inverse3(adjugate@, self@, det as int);
                    lemma_unit_scaled_right_inverse3(adjugate@, self@, det as int);
                }
                Some(adjugate.mul(det))
            },
            None => None,
        }
    }

    /// The matrix whose rows are the columns of `self`.
    fn transpose(&self) -> (r: Matrix3D)
        ensures
            r@ == self@.transpose(),
    {
        let n = &self.n;
        Matrix3D::new(n[0].x, n[1].x, n[2].x, n[0].y, n[1].y, n[2].y, n[0].z, n[1].z, n[2].z)
    }

    /// `self + rhs`, entry by entry.
    pub fn add(&self, rhs: &Matrix3D) -> (r: Matrix3D)
        requires
            self@.add(rhs@).fits(),
        ensures
            r@ == self@.add(rhs@),
    {
        Matrix3D::from_vector(
            self.n[0].add(&rhs.n[0]),
            self.n[1].add(&rhs.n[1]),
            self.n[2].add(&rhs.n[2]),
        )
    }

    /// `self - rhs`, entry by entry.
    pub fn sub(&self, rhs: &Matrix3D) -> (r: Matrix3D)
        requires
            self@.sub(rhs@).fits(),
        ensures
            r@ == self@.sub(rhs@),
    {
        Matrix3D::from_vector(
            self.n[0].sub(&rhs.n[0]),
            self.n[1].sub(&rhs.n[1]),
            self.n[2].sub(&rhs.n[2]),
        )
    }

    /// `self * s`: every entry multiplied by the scalar `s`.
    pub fn mul(&self, s: i64) -> (r: Matrix3D)
        requires
            self@.scale(s as int).fits(),
        ensures
            r@ == self@.scale(s as int),
    {
        Matrix3D::from_vector(self.n[0].mul(s), self.n[1].mul(s), self.n[2].mul(s))
    }

    /// `s * m`: the scalar on the left, with the same result as `m * s`.
    pub fn scalar_mul(s: i64, m: &Matrix3D) -> (r: Matrix3D)
        requires
            m@.scale(s as int).fits(),
        ensures
            r@ == m@.scale(s as int),
    {
        m.mul(s)
    }

    /// `self * v`: the image of `v`, each entry a row of `self` dotted with `v`.
    pub fn mul_vector(&self, v: &Vector3D) -> (r: Vector3D)
        requires
            self@.bounded(PRODUCT_BOUND as int),
            v@.bounded(PRODUCT_BOUND as int),
        ensures
            r@ == self@.apply(v@),
    {
        Vector3D::new(self.n[0].dot(v), self.n[1].dot(v), self.n[2].dot(v))
    }

    /// `self * rhs`: entry `(i, j)` is row `i` of `self` dotted with column `j` of `rhs`.
    pub fn mul_matrix(&self, rhs: &Matrix3D) -> (r: Matrix3D)
        requires
            self@.bounded(PRODUCT_BOUND as int),
            rhs@.bounded(PRODUCT_BOUND as int),
        ensures
            r@ == self@.mul(rhs@),
    {
        let t = rhs.transpose();
        Matrix3D::from_vector(t.mul_vector(&self.n[0]), t.mul_vector(&self.n[1]),
            t.mul_vector(&self.n[2]))
    }
}

impl Matrix3D {
    /// The outer product `p qᵀ`.
    fn outer(p: &Vector3D, q: &Vector3D) -> (r: Matrix3D)
        requires
            Mat3::outer(p@, q@).fits(),
        ensures
            r@ == Mat3::outer(p@, q@),
    {
        Matrix3D::from_vector(q.mul(p.x), q.mul(p.y), q.mul(p.z))
    }

    /// The rotation about the unit vector `a` by the angle whose cosine is `c`
    /// and whose sine is `s`: `c I + (1 - c) a aᵀ + s [a]×`, where `[a]×` is
    /// the matrix of `v ↦ a × v`.
    pub fn make_rotation(c: i64, s: i64, a: Vector3D) -> (r: Matrix3D)
        requires
            a@.bounded(CUBIC_BOUND as int),
            -CUBIC_BOUND <= c <= CUBIC_BOUND,
            -CUBIC_BOUND <= s <= CUBIC_BOUND,
        ensures
            r@ == Mat3::identity().scale(c as int).add(Mat3::outer(a@, a@).scale(1 - c)).add(
                Mat3::cross_matrix(a@).scale(s as int),
            ),
    {
        let ghost q = CUBIC_BOUND as int;
        proof {
            lemma_outer_bounded(a@, a@, 1 - c, q, q, q + 1);
            lemma_mul_bounded(a.x as int, s as int, q, q);
            lemma_mul_bounded(a.y as int, s as int, q, q);
            lemma_mul_bounded(a.z as int, s as int, q, q);
            lemma_mul_bounded(-a.x, s as int, q, q);
            lemma_mul_bounded(-a.y, s as int, q, q);
            lemma_mul_bounded(-a.z, s as int, q, q);
        }
        let k = Matrix3D::new(0, -a.z, a.y, a.z, 0, -a.x, -a.y, a.x, 0);
        let diagonal = Matrix3D::new(c, 0, 0, 0, c, 0, 0, 0, c);
        assert(1 * (c as int) == c && 0 * (c as int) == 0) by (nonlinear_arith);
        assert(diagonal@ == Mat3::identity().scale(c as int));
        diagonal.add(&Matrix3D::outer(&a, &a).mul(1 - c)).add(&k.mul(s))
    }

    /// The rotation about the x axis by the angle whose cosine is `c` and whose
    /// sine is `s`.
    pub fn make_rotation_x(c: i64, s: i64) -> (r: Matrix3D)
        requires
            s != i64::MIN,
        ensures
            r@ == Mat3::from_rows(
                Vec3::new(1, 0, 0),
                Vec3::new(0, c as int, -s),
                Vec3::new(0, s as int, c as int),
            ),
    {
        Matrix3D::new(1, 0, 0, 0, c, -s, 0, s, c)
    }

    /// The rotation about the y axis by the angle whose cosine is `c` and whose
    /// sine is `s`.
    pub fn make_rotation_y(c: i64, s: i64) -> (r: Matrix3D)
        requires
            s != i64::MIN,
        ensures
            r@ == Mat3::from_rows(
                Vec3::new(c as int, 0, s as int),
                Vec3::new(0, 1, 0),
                Vec3::new(-s, 0, c as int),
            ),
    {
        Matrix3D::new(c, 0, s, 0, 1, 0, -s, 0, c)
    }

    /// The rotation about the z axis by the angle whose cosine is `c` and whose
    /// sine is `s`.
    pub fn make_rotation_z(c: i64, s: i64) -> (r: Matrix3D)
        requires
            s != i64::MIN,
        ensures
            r@ == Mat3::from_rows(
                Vec3::new(c as int, -s, 0),
                Vec3::new(s as int, c as int, 0),
                Vec3::new(0, 0, 1),
            ),
    {
        Matrix3D::new(c, -s, 0, s, c, 0, 0, 0, 1)
    }

    /// The reflection through the plane orthogonal to the unit vector `a`:
    /// `I - 2 a aᵀ`. (That `a` has length 1 is the caller's concern; the
    /// formula is applied as it stands.)
    pub fn make_reflection(a: Vector3D) -> (r: Matrix3D)
        requires
            a@.bounded(PRODUCT_BOUND as int),
        ensures
            r@ == Mat3::identity().sub(Mat3::outer(a@, a@).scale(2)),
    {
        proof {
            lemma_outer_bounded(a@, a@, 2, PRODUCT_BOUND as int, PRODUCT_BOUND as int, 2);
        }
        Matrix3D::identity().sub(&Matrix3D::outer(&a, &a).mul(2))
    }

    /// The involution through the line of the unit vector `a`: `2 a aᵀ - I`.
    pub fn make_involution(a: Vector3D) -> (r: Matrix3D)
        requires
            a@.bounded(PRODUCT_BOUND as int),
        ensures
            r@ == Mat3::outer(a@, a@).scale(2).sub(Mat3::identity()),
    {
        proof {
            lemma_outer_bounded(a@, a@, 2, PRODUCT_BOUND as int, PRODUCT_BOUND as int, 2);
        }
        Matrix3D::outer(&a, &a).mul(2).sub(&Matrix3D::identity())
    }

    /// The scale by `sx`, `sy` and `sz` along the axes.
    pub fn make_scale(sx: i64, sy: i64, sz: i64) -> (r: Matrix3D)
        ensures
            r@ == Mat3::from_rows(
                Vec3::new(sx as int, 0, 0),
                Vec3::new(0, sy as int, 0),
                Vec3::new(0, 0, sz as int),
            ),
    {
        Matrix3D::new(sx, 0, 0, 0, sy, 0, 0, 0, sz)
    }

    /// The scale by `s` along the unit vector `a`: `I + (s - 1) a aᵀ`.
    pub fn make_directional_scale(s: i64, a: Vector3D) -> (r: Matrix3D)
        requires
            a@.bounded(CUBIC_BOUND as int),
            -CUBIC_BOUND <= s <= CUBIC_BOUND,
        ensures
            r@ == Mat3::identity().add(Mat3::outer(a@, a@).scale(s - 1)),
    {
        proof {
            let q = CUBIC_BOUND as int;
            lemma_outer_bounded(a@, a@, s - 1, q, q, q + 1);
        }
        Matrix3D::identity().add(&Matrix3D::outer(&a, &a).mul(s - 1))
    }

    /// The skew by the angle whose tangent is `t`, along `a` and in the
    /// direction of the projection on `b`, for orthogonal unit vectors `a`
    /// and `b`: `I + t a bᵀ`.
    pub fn make_skew(t: i64, a: Vector3D, b: Vector3D) -> (r: Matrix3D)
        requires
            a@.bounded(CUBIC_BOUND as int),
            b@.bounded(CUBIC_BOUND as int),
            -CUBIC_BOUND <= t <= CUBIC_BOUND,
        ensures
            r@ == Mat3::identity().add(Mat3::outer(a@, b@).scale(t as int)),
    {
        proof {
            let q = CUBIC_BOUND as int;
            lemma_outer_bounded(a@, b@, t as int, q, q, q);
        }
        Matrix3D::identity().add(&Matrix3D::outer(&a, &b).mul(t))
    }
}

impl Matrix3D {
    /// A walk over the nine entries, column by column: the entries of
    /// column 0 from top to bottom, then those of column 1, then column 2.
    pub fn into_iter(self) -> (r: Matrix3DIterator)
        ensures
            r.matrix() == self@,
            r.position() == 0,
    {
        Matrix3DIterator { n: self.n, index: 0 }
    }
}

/// The entry at position `k` of the column-by-column walk over a 3×3 matrix:
/// row `k % 3` of column `k / 3`.
pub open spec fn column_major_entry(m: Mat3, k: int) -> int {
    m.entry(k % 3, k / 3)
}

/// A walk over the entries of a 3×3 matrix in column-major order.
pub struct Matrix3DIterator {
    n: [Vector3D; 3],
    index: usize,
}

impl Matrix3DIterator {
    /// The matrix walked over.
    pub closed spec fn matrix(&self) -> Mat3 {
        Mat3 { r0: self.n@[0]@, r1: self.n@[1]@, r2: self.n@[2]@ }
    }

    /// How many entries have been handed out.
    pub closed spec fn position(&self) -> int {
        self.index as int
    }

    /// The next entry of the walk, or `None` once all nine were handed out.
    pub fn next(&mut self) -> (r: Option<i64>)
        ensures
            final(self).matrix() == old(self).matrix(),
            old(self).position() < 9 ==> final(self).position() == old(self).position() + 1 && (r
                matches Some(v) && v == column_major_entry(old(self).matrix(), old(self).position())),
            old(self).position() >= 9 ==> final(self).position() == old(self).position() && r is None,
    {
        let i = self.index / 3;
        let j = self.index % 3;
        if i < 3 && j < 3 {
            self.index += 1;
            Some(self.n[j].at(i))
        } else {
            None
        }
    }
}

/// Bounds on an outer product and on a multiple of it.
proof fn lemma_outer_bounded(p: Vec3, q: Vec3, k: int, bp: int, bq: int, bk: int)
    requires
        p.bounded(bp),
        q.bounded(bq),
        -bk <= k <= bk,
    ensures
        Mat3::outer(p, q).bounded(bp * bq),
        Mat3::outer(p, q).scale(k).bounded((bp * bq) * bk),
{
    lemma_products_bounded(q, p, bq, bp);
    assert(bq * bp == bp * bq) by (nonlinear_arith);
    let o = Mat3::outer(p, q);
    lemma_mul_bounded(o.r0.x, k, bp * bq, bk);
    lemma_mul_bounded(o.r0.y, k, bp * bq, bk);
    lemma_mul_bounded(o.r0.z, k, bp * bq, bk);
    lemma_mul_bounded(o.r1.x, k, bp * bq, bk);
    lemma_mul_bounded(o.r1.y, k, bp * bq, bk);
    lemma_mul_bounded(o.r1.z, k, bp * bq, bk);
    lemma_mul_bounded(o.r2.x, k, bp * bq, bk);
    lemma_mul_bounded(o.r2.y, k, bp * bq, bk);
    lemma_mul_bounded(o.r2.z, k, bp * bq, bk);
}

/// The adjugate built from the cross products of the rows is, row by row,
/// the cross products of the columns, so that it times the matrix is the
/// determinant times the identity.
proof fn lemma_adjugate3(m: Mat3, adj: Mat3)
    requires
        adj == Mat3::from_rows(
            Vec3::new(m.r1.cross(m.r2).x, m.r2.cross(m.r0).x, m.r0.cross(m.r1).x),
            Vec3::new(m.r1.cross(m.r2).y, m.r2.cross(m.r0).y, m.r0.cross(m.r1).y),
            Vec3::new(m.r1.cross(m.r2).z, m.r2.cross(m.r0).z, m.r0.cross(m.r1).z),
        ),
    ensures
        adj.mul(m) == Mat3::identity().scale(m.det()),
        m.mul(adj) == Mat3::identity().scale(m.det()),
{
    let (p, q, w) = (m.col(0), m.col(1), m.col(2));
    assert(p == Vec3::new(m.r0.x, m.r1.x, m.r2.x));
    assert(q == Vec3::new(m.r0.y, m.r1.y, m.r2.y));
    assert(w == Vec3::new(m.r0.z, m.r1.z, m.r2.z));
    reveal(Vec3::cross);
    assert(m.r1.y * m.r2.z - m.r1.z * m.r2.y == m.r1.y * m.r2.z - m.r2.y
        * m.r1.z) by (nonlinear_arith);
    assert(m.r2.y * m.r0.z - m.r2.z * m.r0.y == m.r2.y * m.r0.z - m.r0.y
        * m.r2.z) by (nonlinear_arith);
    assert(m.r0.y * m.r1.z - m.r0.z * m.r1.y == m.r0.y * m.r1.z - m.r1.y
        * m.r0.z) by (nonlinear_arith);
    assert(m.r1.z * m.r2.x - m.r1.x * m.r2.z == m.r1.z * m.r2.x - m.r2.z
        * m.r1.x) by (nonlinear_arith);
    assert(m.r2.z * m.r0.x - m.r2.x * m.r0.z == m.r2.z * m.r0.x - m.r0.z
        * m.r2.x) by (nonlinear_arith);
    assert(m.r0.z * m.r1.x - m.r0.x * m.r1.z == m.r0.z * m.r1.x - m.r1.z
        * m.r0.x) by (nonlinear_arith);
    assert(m.r1.x * m.r2.y - m.r1.y * m.r2.x == m.r1.x * m.r2.y - m.r2.x
        * m.r1.y) by (nonlinear_arith);
    assert(m.r2.x * m.r0.y - m.r2.y * m.r0.x == m.r2.x * m.r0.y - m.r0.x
        * m.r2.y) by (nonlinear_arith);
    assert(m.r0.x * m.r1.y - m.r0.y * m.r1.x == m.r0.x * m.r1.y - m.r1.x
        * m.r0.y) by (nonlinear_arith);
    assert(adj == Mat3::from_rows(q.cross(w), w.cross(p), p.cross(q)));
    lemma_det_transpose(m);
    lemma_triple_det(p, q, w);
    lemma_triple_cyclic(p, q, w);
    lemma_cross_orthogonal(q, w);
    lemma_cross_orthogonal(w, p);
    lemma_cross_orthogonal(p, q);
    lemma_dot_comm(p, q.cross(w));
    lemma_dot_comm(q, q.cross(w));
    lemma_dot_comm(w, q.cross(w));
    lemma_dot_comm(p, w.cross(p));
    lemma_dot_comm(q, w.cross(p));
    lemma_dot_comm(w, w.cross(p));
    lemma_dot_comm(p, p.cross(q));
    lemma_dot_comm(q, p.cross(q));
    lemma_dot_comm(w, p.cross(q));
    let (a, b, c) = (m.r0, m.r1, m.r2);
    assert(adj.col(0) == b.cross(c) && adj.col(1) == c.cross(a) && adj.col(2) == a.cross(b));
    assert(Mat3::from_rows(a, b, c) == m);
    lemma_triple_det(a, b, c);
    lemma_triple_cyclic(a, b, c);
    lemma_cross_orthogonal(b, c);
    lemma_cross_orthogonal(c, a);
    lemma_cross_orthogonal(a, b);
}

/// The determinant of the transpose is the determinant.
proof fn lemma_det_transpose(m: Mat3)
    ensures
        Mat3::from_rows(m.col(0), m.col(1), m.col(2)).det() == m.det(),
{
    assert(m.col(0) == Vec3::new(m.r0.x, m.r1.x, m.r2.x));
    assert(m.col(1) == Vec3::new(m.r0.y, m.r1.y, m.r2.y));
    assert(m.col(2) == Vec3::new(m.r0.z, m.r1.z, m.r2.z));
    assert(m.r1.x * m.r2.y * m.r0.z == m.r0.z * m.r1.x * m.r2.y) by (nonlinear_arith);
    assert(m.r2.x * m.r0.y * m.r1.z == m.r0.y * m.r1.z * m.r2.x) by (nonlinear_arith);
    assert(m.r0.x * m.r2.y * m.r1.z == m.r0.x * m.r1.z * m.r2.y) by (nonlinear_arith);
    assert(m.r1.x * m.r0.y * m.r2.z == m.r0.y * m.r1.x * m.r2.z) by (nonlinear_arith);
    assert(m.r2.x * m.r1.y * m.r0.z == m.r0.z * m.r1.y * m.r2.x) by (nonlinear_arith);
}

/// A matrix `a` with `m a = k I` for a unit `k` gives the right inverse `k a` of `m`.
proof fn lemma_unit_scaled_right_inverse3(a: Mat3, m: Mat3, k: int)
    requires
        m.mul(a) == Mat3::identity().scale(k),
        k == 1 || k == -1,
    ensures
        m.mul(a.scale(k)) == Mat3::identity(),
{
    let s = a.scale(k);
    assert(s.col(0) == a.col(0).scale(k) && s.col(1) == a.col(1).scale(k) && s.col(2) == a.col(
        2,
    ).scale(k));
    lemma_dot_scale(a.col(0), m.r0, k);
    lemma_dot_scale(a.col(1), m.r0, k);
    lemma_dot_scale(a.col(2), m.r0, k);
    lemma_dot_scale(a.col(0), m.r1, k);
    lemma_dot_scale(a.col(1), m.r1, k);
    lemma_dot_scale(a.col(2), m.r1, k);
    lemma_dot_scale(a.col(0), m.r2, k);
    lemma_dot_scale(a.col(1), m.r2, k);
    lemma_dot_scale(a.col(2), m.r2, k);
    assert(k * k == 1) by (nonlinear_arith)
        requires
            k == 1 || k == -1,
    ;
}

/// A matrix `a` with `a m = k I` for a unit `k` gives the inverse `k a` of `m`.
proof fn lemma_unit_scaled_inverse3(a: Mat3, m: Mat3, k: int)
    requires
        a.mul(m) == Mat3::identity().scale(k),
        k == 1 || k == -1,
    ensures
        a.scale(k).mul(m) == Mat3::identity(),
{
    lemma_dot_scale(a.r0, m.col(0), k);
    lemma_dot_scale(a.r0, m.col(1), k);
    lemma_dot_scale(a.r0, m.col(2), k);
    lemma_dot_scale(a.r1, m.col(0), k);
    lemma_dot_scale(a.r1, m.col(1), k);
    lemma_dot_scale(a.r1, m.col(2), k);
    lemma_dot_scale(a.r2, m.col(0), k);
    lemma_dot_scale(a.r2, m.col(1), k);
    lemma_dot_scale(a.r2, m.col(2), k);
    assert(k * k == 1) by (nonlinear_arith)
        requires
            k == 1 || k == -1,
    ;
}

/// Bounds on the partial products of four factors bounded by `QUARTIC_BOUND`.
proof fn lemma_quartic_term(p: int, q: int, r: int, s: int)
    requires
        -0x4000 <= p <= 0x4000,
        -0x4000 <= q <= 0x4000,
        -0x4000 <= r <= 0x4000,
        -0x4000 <= s <= 0x4000,
    ensures
        -0x1000_0000 <= p * q <= 0x1000_0000,
        -0x400_0000_0000 <= p * q * r <= 0x400_0000_0000,
        -0x100_0000_0000_0000 <= p * q * r * s <= 0x100_0000_0000_0000,
{
    lemma_mul_bounded(p, q, 0x4000, 0x4000);
    lemma_mul_bounded(p * q, r, 0x1000_0000, 0x4000);
    lemma_mul_bounded(p * q * r, s, 0x400_0000_0000, 0x4000);
}

/// A 4×4 matrix of `i64` entries, held as four row vectors.
#[derive(Clone, Copy, Debug)]
pub struct Matrix4D {
    n: [Vector4D; 4],
}

impl View for Matrix4D {
    type V = Mat4;

    closed spec fn view(&self) -> Mat4 {
        Mat4 {
            r0: self.n@[0]@,
            r1: self.n@[1]@,
            r2: self.n@[2]@,
            r3: self.n@[3]@,
        }
    }
}

impl PartialEq for Matrix4D {
    fn eq(&self, other: &Matrix4D) -> (r: bool) {
        self.n[0] == other.n[0] && self.n[1] == other.n[1] && self.n[2] == other.n[2]
            && self.n[3] == other.n[3]
    }
}

impl vstd::std_specs::cmp::PartialEqSpecImpl for Matrix4D {
    open spec fn obeys_eq_spec() -> bool {
        true
    }

    open spec fn eq_spec(&self, other: &Matrix4D) -> bool {
        self@ == other@
    }
}

impl Matrix4D {
    /// The determinant, by the 24-term expansion over permutations.
    pub fn determinant(&self) -> (r: i64)
        requires
            self@.bounded(QUARTIC_BOUND as int),
        ensures
            r == self@.det(),
    {
        let a = self.n[0];
        let b = self.n[1];
        let c = self.n[2];
        let d = self.n[3];
        proof {
            lemma_quartic_term(a.x as int, b.y as int, c.z as int, d.w as int);
            lemma_quartic_term(a.x as int, b.z as int, c.w as int, d.y as int);
            lemma_quartic_term(a.x as int, b.w as int, c.y as int, d.z as int);
            lemma_quartic_term(a.x as int, b.w as int, c.z as int, d.y as int);
            lemma_quartic_term(a.x as int, b.z as int, c.y as int, d.w as int);
            lemma_quartic_term(a.x as int, b.y as int, c.w as int, d.z as int);
            lemma_quartic_term(a.y as int, b.x as int, c.z as int, d.w as int);
            lemma_quartic_term(a.z as int, b.x as int, c.w as int, d.y as int);
            lemma_quartic_term(a.w as int, b.x as int, c.y as int, d.z as int);
            lemma_quartic_term(a.w as int, b.x as int, c.z as int, d.y as int);
            lemma_quartic_term(a.z as int, b.x as int, c.y as int, d.w as int);
            lemma_quartic_term(a.y as int, b.x as int, c.w as int, d.z as int);
            lemma_quartic_term(a.y as int, b.z as int, c.x as int, d.w as int);
            lemma_quartic_term(a.z as int, b.w as int, c.x as int, d.y as int);
            lemma_quartic_term(a.w as int, b.y as int, c.x as int, d.z as int);
            lemma_quartic_term(a.w as int, b.z as int, c.x as int, d.y as int);
            lemma_quartic_term(a.z as int, b.y as int, c.x as int, d.w as int);
            lemma_quartic_term(a.y as int, b.w as int, c.x as int, d.z as int);
            lemma_quartic_term(a.y as int, b.z as int, c.w as int, d.x as int);
            lemma_quartic_term(a.z as int, b.w as int, c.y as int, d.x as int);
            lemma_quartic_term(a.w as int, b.y as int, c.z as int, d.x as int);
            lemma_quartic_term(a.w as int, b.z as int, c.y as int, d.x as int);
            lemma_quartic_term(a.z as int, b.y as int, c.w as int, d.x as int);
            lemma_quartic_term(a.y as int, b.w as int, c.z as int, d.x as int);
        }
        a.x * b.y * c.z * d.w
            + a.x * b.z * c.w * d.y
            + a.x * b.w * c.y * d.z
            - a.x * b.w * c.z * d.y
            - a.x * b.z * c.y * d.w
            - a.x * b.y * c.w * d.z
            - a.y * b.x * c.z * d.w
            - a.z * b.x * c.w * d.y
            - a.w * b.x * c.y * d.z
            + a.w * b.x * c.z * d.y
            + a.z * b.x * c.y * d.w
            + a.y * b.x * c.w * d.z
            + a.y * b.z * c.x * d.w
            + a.z * b.w * c.x * d.y
            + a.w * b.y * c.x * d.z
            - a.w * b.z * c.x * d.y
            - a.z * b.y * c.x * d.w
            - a.y * b.w * c.x * d.z
            - a.y * b.z * c.w * d.x
            - a.z * b.w * c.y * d.x
            - a.w * b.y * c.z * d.x
            + a.w * b.z * c.y * d.x
            + a.z * b.y * c.w * d.x
            + a.y * b.w * c.z * d.x
    }

    /// The matrix with rows `(n00, n01, n02, n03)`, ..., `(n30, n31, n32, n33)`.
    pub fn new(
        n00: i64, n01: i64, n02: i64, n03: i64,
        n10: i64, n11: i64, n12: i64, n13: i64,
        n20: i64, n21: i64, n22: i64, n23: i64,
        n30: i64, n31: i64, n32: i64, n33: i64,
    ) -> (r: Self)
        ensures
            r@ == Mat4::from_rows(
                Vec4::new(n00 as int, n01 as int, n02 as int, n03 as int),
                Vec4::new(n10 as int, n11 as int, n12 as int, n13 as int),
                Vec4::new(n20 as int, n21 as int, n22 as int, n23 as int),
                Vec4::new(n30 as int, n31 as int, n32 as int, n33 as int),
            ),
    {
        let n1 = Vector4D::new(n00, n01, n02, n03);
        let n2 = Vector4D::new(n10, n11, n12, n13);
        let n3 = Vector4D::new(n20, n21, n22, n23);
        let n4 = Vector4D::new(n30, n31, n32, n33);
        Self { n: [n1, n2, n3, n4] }
    }

    /// The matrix whose rows are `a`, `b`, `c` and `d`, in that order.
    pub fn from_vector(a: Vector4D, b: Vector4D, c: Vector4D, d: Vector4D) -> (r: Self)
        ensures
            r@ == Mat4::from_rows(a@, b@, c@, d@),
    {
        let n = [a, b, c, d];
        Self { n }
    }

    pub fn identity() -> (r: Self)
        ensures
            r@ == Mat4::identity(),
    {
        Matrix4D::new(1, 0, 0, 0, 0, 1, 0, 0, 0, 0, 1, 0, 0, 0, 0, 1)
    }

    /// Row `index`.
    pub fn at(&self, index: usize) -> (r: Vector4D)
        requires
            index < 4,
        ensures
            r@ == self@.row(index as int),
    {
        self.n[index]
    }

    /// The matrix whose rows are the columns of `self`.
    fn transpose(&self) -> (r: Matrix4D)
        ensures
            r@ == self@.transpose(),
    {
        let n = &self.n;
        Matrix4D::new(
            n[0].x, n[1].x, n[2].x, n[3].x,
            n[0].y, n[1].y, n[2].y, n[3].y,
            n[0].z, n[1].z, n[2].z, n[3].z,
            n[0].w, n[1].w, n[2].w, n[3].w,
        )
    }

    /// `self + rhs`, entry by entry.
    pub fn add(&self, rhs: &Matrix4D) -> (r: Matrix4D)
        requires
            self@.add(rhs@).fits(),
        ensures
            r@ == self@.add(rhs@),
    {
        Matrix4D::from_vector(
            self.n[0].add(&rhs.n[0]),
            self.n[1].add(&rhs.n[1]),
            self.n[2].add(&rhs.n[2]),
            self.n[3].add(&rhs.n[3]),
        )
    }

    /// `self - rhs`, entry by entry.
    pub fn sub(&self, rhs: &Matrix4D) -> (r: Matrix4D)
        requires
            self@.sub(rhs@).fits(),
        ensures
            r@ == self@.sub(rhs@),
    {
        Matrix4D::from_vector(
            self.n[0].sub(&rhs.n[0]),
            self.n[1].sub(&rhs.n[1]),
            self.n[2].sub(&rhs.n[2]),
            self.n[3].sub(&rhs.n[3]),
        )
    }

    /// `self * s`: every entry multiplied by the scalar `s`.
    pub fn mul(&self, s: i64) -> (r: Matrix4D)
        requires
            self@.scale(s as int).fits(),
        ensures
            r@ == self@.scale(s as int),
    {
        Matrix4D::from_vector(self.n[0].mul(s), self.n[1].mul(s), self.n[2].mul(s),
            self.n[3].mul(s))
    }

    /// `s * m`: the scalar on the left, with the same result as `m * s`.
    pub fn scalar_mul(s: i64, m: &Matrix4D) -> (r: Matrix4D)
        requires
            m@.scale(s as int).fits(),
        ensures
            r@ == m@.scale(s as int),
    {
        m.mul(s)
    }

    /// `self * v`: the image of `v`, each entry a row of `self` dotted with `v`.
    pub fn mul_vector(&self, v: &Vector4D) -> (r: Vector4D)
        requires
            self@.bounded(PRODUCT_BOUND as int),
            v@.bounded(PRODUCT_BOUND as int),
        ensures
            r@ == self@.apply(v@),
    {
        Vector4D::new(self.n[0].dot(v), self.n[1].dot(v), self.n[2].dot(v), self.n[3].dot(v))
    }

    /// `self * rhs`: entry `(i, j)` is row `i` of `self` dotted with column `j` of `rhs`.
    pub fn mul_matrix(&self, rhs: &Matrix4D) -> (r: Matrix4D)
        requires
            self@.bounded(PRODUCT_BOUND as int),
            rhs@.bounded(PRODUCT_BOUND as int),
        ensures
            r@ == self@.mul(rhs@),
    {
        let t = rhs.transpose();
        Matrix4D::from_vector(
            t.mul_vector(&self.n[0]),
            t.mul_vector(&self.n[1]),
            t.mul_vector(&self.n[2]),
            t.mul_vector(&self.n[3]),
        )
    }

    /// The inverse in exact integer form: the adjugate and the determinant,
    /// of which the inverse is the quotient; `None` exactly when the
    /// determinant is 0. With `a`, `b`, `c`, `d` the upper parts of the
    /// columns and `(x, y, z, w)` the last row, the determinant is
    /// `s · v + t · u` for `s = a × b`, `t = c × d`, `u = y a - x b`,
    /// `v = w c - z d`, and the adjugate is assembled from the same vectors.
    pub fn inverse(&self) -> (r: Option<(Matrix4D, i64)>)
        requires
            self@.bounded(QUARTIC_BOUND as int),
        ensures
            r is Some <==> self@.det() != 0,
            r matches Some((adj, d)) ==> {
                &&& d == self@.det()
                &&& adj@.mul(self@) == Mat4::identity().scale(d as int)
                &&& self@.mul(adj@) == Mat4::identity().scale(d as int)
                &&& adj@.bounded(8 * (QUARTIC_BOUND * QUARTIC_BOUND * QUARTIC_BOUND))
            },
    {
        let n = &self.n;
        let a = Vector3D::new(n[0].x, n[1].x, n[2].x);
        let b = Vector3D::new(n[0].y, n[1].y, n[2].y);
        let c = Vector3D::new(n[0].z, n[1].z, n[2].z);
        let d = Vector3D::new(n[0].w, n[1].w, n[2].w);
        let x = n[3].x;
        let y = n[3].y;
        let z = n[3].z;
        let w = n[3].w;
        let ghost q = QUARTIC_BOUND as int;
        proof {
            lemma_block_inverse(self@);
            lemma_products_bounds(a@, b@, q, q);
            lemma_products_bounds(c@, d@, q, q);
            lemma_scaled_difference_bounded(a@, y as int, b@, x as int, q);
            lemma_scaled_difference_bounded(c@, w as int, d@, z as int, q);
        }
        let s = a.cross(&b);
        let t = c.cross(&d);
        let u = a.mul(y).sub(&b.mul(x));
        let v = c.mul(w).sub(&d.mul(z));
        proof {
            lemma_products_bounds(s@, v@, 2 * (q * q), 2 * (q * q));
            lemma_products_bounds(t@, u@, 2 * (q * q), 2 * (q * q));
        }
        let det = s.dot(&v) + t.dot(&u);
        if det == 0 {
            return None;
        }
        proof {
            lemma_products_bounds(b@, v@, q, 2 * (q * q));
            lemma_products_bounds(v@, a@, 2 * (q * q), q);
            lemma_products_bounds(d@, u@, q, 2 * (q * q));
            lemma_products_bounds(u@, c@, 2 * (q * q), q);
            lemma_products_bounds(b@, t@, q, 2 * (q * q));
            lemma_products_bounds(a@, t@, q, 2 * (q * q));
            lemma_products_bounds(d@, s@, q, 2 * (q * q));
            lemma_products_bounds(c@, s@, q, 2 * (q * q));
            lemma_scaled_bounded(t@, y as int, 2 * (q * q), q);
            lemma_scaled_bounded(t@, x as int, 2 * (q * q), q);
            lemma_scaled_bounded(s@, w as int, 2 * (q * q), q);
            lemma_scaled_bounded(s@, z as int, 2 * (q * q), q);
        }
        let r0 = b.cross(&v).add(&t.mul(y));
        let r1 = v.cross(&a).sub(&t.mul(x));
        let r2 = d.cross(&u).add(&s.mul(w));
        let r3 = u.cross(&c).sub(&s.mul(z));
        let adjugate = Matrix4D::new(
            r0.x, r0.y, r0.z, -b.dot(&t),
            r1.x, r1.y, r1.z, a.dot(&t),
            r2.x, r2.y, r2.z, -d.dot(&s),
            r3.x, r3.y, r3.z, c.dot(&s),
        );
        proof {
            assert(self@.upper(0) == a@ && self@.upper(1) == b@ && self@.upper(2) == c@
                && self@.upper(3) == d@);
            assert(adjugate@ == block_adjugate(self@));
            lemma_block_adjugate_right(self@);
        }
        Some((adjugate, det))
    }

    /// The inverse, when it has integer entries: that is exactly when the
    /// determinant is 1 or -1, and the inverse is then the adjugate times
    /// the determinant.
    pub fn integer_inverse(&self) -> (r: Option<Matrix4D>)
        requires
            self@.bounded(QUARTIC_BOUND as int),
        ensures
            r is Some <==> (self@.det() == 1 || self@.det() == -1),
            r matches Some(inv) ==> inv@.mul(self@) == Mat4::identity() && self@.mul(inv@)
                == Mat4::identity(),
    {
        match self.inverse() {
            Some((adjugate, det)) => {
                if det != 1 && det != -1 {
                    return None;
                }
                proof {
                    lemma_unit_scaled_inverse(adjugate@, self@, det as int);
                    lemma_unit_scaled_right_inverse(adjugate@, self@, det as int);
                }
                Some(adjugate.mul(det))
            },
            None => None,
        }
    }
}

/// A matrix `a` with `m a = k I` for a unit `k` gives the right inverse `k a` of `m`.
proof fn lemma_unit_scaled_right_inverse(a: Mat4, m: Mat4, k: int)
    requires
        m.mul(a) == Mat4::identity().scale(k),
        k == 1 || k == -1,
    ensures
        m.mul(a.scale(k)) == Mat4::identity(),
{
    let s = a.scale(k);
    assert(s.col(0) == a.col(0).scale(k));
    assert(s.col(1) == a.col(1).scale(k));
    assert(s.col(2) == a.col(2).scale(k));
    assert(s.col(3) == a.col(3).scale(k));
    lemma_dot4_scale_left(a.col(0), m.r0, k);
    lemma_dot4_scale_left(a.col(1), m.r0, k);
    lemma_dot4_scale_left(a.col(2), m.r0, k);
    lemma_dot4_scale_left(a.col(3), m.r0, k);
    lemma_dot4_scale_left(a.col(0), m.r1, k);
    lemma_dot4_scale_left(a.col(1), m.r1, k);
    lemma_dot4_scale_left(a.col(2), m.r1, k);
    lemma_dot4_scale_left(a.col(3), m.r1, k);
    lemma_dot4_scale_left(a.col(0), m.r2, k);
    lemma_dot4_scale_left(a.col(1), m.r2, k);
    lemma_dot4_scale_left(a.col(2), m.r2, k);
    lemma_dot4_scale_left(a.col(3), m.r2, k);
    lemma_dot4_scale_left(a.col(0), m.r3, k);
    lemma_dot4_scale_left(a.col(1), m.r3, k);
    lemma_dot4_scale_left(a.col(2), m.r3, k);
    lemma_dot4_scale_left(a.col(3), m.r3, k);
    assert(k * k == 1) by (nonlinear_arith)
        requires
            k == 1 || k == -1,
    ;
}

/// A matrix `a` with `a m = k I` for a unit `k` gives the inverse `k a` of `m`.
proof fn lemma_unit_scaled_inverse(a: Mat4, m: Mat4, k: int)
    requires
        a.mul(m) == Mat4::identity().scale(k),
        k == 1 || k == -1,
    ensures
        a.scale(k).mul(m) == Mat4::identity(),
{
    lemma_dot4_scale(m.col(0), a.r0, k);
    lemma_dot4_scale(m.col(1), a.r0, k);
    lemma_dot4_scale(m.col(2), a.r0, k);
    lemma_dot4_scale(m.col(3), a.r0, k);
    lemma_dot4_scale(m.col(0), a.r1, k);
    lemma_dot4_scale(m.col(1), a.r1, k);
    lemma_dot4_scale(m.col(2), a.r1, k);
    lemma_dot4_scale(m.col(3), a.r1, k);
    lemma_dot4_scale(m.col(0), a.r2, k);
    lemma_dot4_scale(m.col(1), a.r2, k);
    lemma_dot4_scale(m.col(2), a.r2, k);
    lemma_dot4_scale(m.col(3), a.r2, k);
    lemma_dot4_scale(m.col(0), a.r3, k);
    lemma_dot4_scale(m.col(1), a.r3, k);
    lemma_dot4_scale(m.col(2), a.r3, k);
    lemma_dot4_scale(m.col(3), a.r3, k);
    assert(k * k == 1) by (nonlinear_arith)
        requires
            k == 1 || k == -1,
    ;
}

/// Bounds on the entries of a scaled vector.
proof fn lemma_scaled_bounded(p: Vec3, k: int, bp: int, bk: int)
    requires
        p.bounded(bp),
        -bk <= k <= bk,
    ensures
        p.scale(k).bounded(bp * bk),
{
    lemma_mul_bounded(p.x, k, bp, bk);
    lemma_mul_bounded(p.y, k, bp, bk);
    lemma_mul_bounded(p.z, k, bp, bk);
}

/// Bounds on `p k - r l` for `p`, `r`, `k` and `l` all bounded by `b`.
proof fn lemma_scaled_difference_bounded(p: Vec3, k: int, r: Vec3, l: int, b: int)
    requires
        p.bounded(b),
        r.bounded(b),
        -b <= k <= b,
        -b <= l <= b,
    ensures
        p.scale(k).bounded(b * b),
        r.scale(l).bounded(b * b),
        p.scale(k).sub(r.scale(l)).bounded(2 * (b * b)),
{
    lemma_scaled_bounded(p, k, b, b);
    lemma_scaled_bounded(r, l, b, b);
}

} // verus!
