//! Executable vectors with `i64` components.

use vstd::prelude::*;
use crate::algebra::{Vec3, Vec4, lemma_mul_bounded};
use crate::identities::{lemma_dot_linear, lemma_dot_scale, lemma_products_bounds};

verus! {

/// Components of the operands of products (dot, cross, projection) lie within
/// this bound, so that no intermediate value leaves the range of `i64`.
pub const PRODUCT_BOUND: i64 = 0x4000_0000;

/// Components of the operands of a projection or rejection lie within this
/// bound: a dot product of them times a component stays within `i64`.
pub const PROJECTION_BOUND: i64 = 0x8_0000;

/// A vector of three `i64` components.
#[derive(Clone, Copy, Debug, PartialEq, Eq, Structural)]
pub struct Vector3D {
    pub x: i64,
    pub y: i64,
    pub z: i64,
}

impl View for Vector3D {
    type V = Vec3;

    open spec fn view(&self) -> Vec3 {
        Vec3 { x: self.x as int, y: self.y as int, z: self.z as int }
    }
}

/// Bounds on the nine products of a component of `a` with one of `b`.
pub proof fn lemma_products_bounded(a: Vec3, b: Vec3, ba: int, bb: int)
    requires
        a.bounded(ba),
        b.bounded(bb),
    ensures
        -(ba * bb) <= a.x * b.x <= ba * bb,
        -(ba * bb) <= a.x * b.y <= ba * bb,
        -(ba * bb) <= a.x * b.z <= ba * bb,
        -(ba * bb) <= a.y * b.x <= ba * bb,
        -(ba * bb) <= a.y * b.y <= ba * bb,
        -(ba * bb) <= a.y * b.z <= ba * bb,
        -(ba * bb) <= a.z * b.x <= ba * bb,
        -(ba * bb) <= a.z * b.y <= ba * bb,
        -(ba * bb) <= a.z * b.z <= ba * bb,
{
    lemma_mul_bounded(a.x, b.x, ba, bb);
    lemma_mul_bounded(a.x, b.y, ba, bb);
    lemma_mul_bounded(a.x, b.z, ba, bb);
    lemma_mul_bounded(a.y, b.x, ba, bb);
    lemma_mul_bounded(a.y, b.y, ba, bb);
    lemma_mul_bounded(a.y, b.z, ba, bb);
    lemma_mul_bounded(a.z, b.x, ba, bb);
    lemma_mul_bounded(a.z, b.y, ba, bb);
    lemma_mul_bounded(a.z, b.z, ba, bb);
}

impl Vector3D {
    pub fn new(x: i64, y: i64, z: i64) -> (r: Self)
        ensures
            r@ == Vec3::new(x as int, y as int, z as int),
    {
        Self { x, y, z }
    }

    /// The component at position `index`.
    pub fn at(&self, index: usize) -> (r: i64)
        requires
            index < 3,
        ensures
            r == self@.get(index as int),
    {
        if index == 0 {
            self.x
        } else if index == 1 {
            self.y
        } else {
            self.z
        }
    }

    pub fn cross(&self, rhs: &Vector3D) -> (r: Vector3D)
        requires
            self@.bounded(PRODUCT_BOUND as int),
            rhs@.bounded(PRODUCT_BOUND as int),
        ensures
            r@ == self@.cross(rhs@),
    {
        proof {
            lemma_products_bounded(self@, rhs@, PRODUCT_BOUND as int, PRODUCT_BOUND as int);
            reveal(Vec3::cross);
        }
        Vector3D {
            x: self.y * rhs.z - self.z * rhs.y,
            y: self.z * rhs.x - self.x * rhs.z,
            z: self.x * rhs.y - self.y * rhs.x,
        }
    }

    pub fn dot(&self, rhs: &Vector3D) -> (r: i64)
        requires
            self@.bounded(PRODUCT_BOUND as int),
            rhs@.bounded(PRODUCT_BOUND as int),
        ensures
            r == self@.dot(rhs@),
    {
        proof {
            lemma_products_bounded(self@, rhs@, PRODUCT_BOUND as int, PRODUCT_BOUND as int);
            reveal(Vec3::dot);
        }
        self.x * rhs.x + self.y * rhs.y + self.z * rhs.z
    }

    /// `self + rhs`, component by component.
    pub fn add(&self, rhs: &Vector3D) -> (r: Vector3D)
        requires
            self@.add(rhs@).fits(),
        ensures
            r@ == self@.add(rhs@),
    {
        Vector3D::new(self.x + rhs.x, self.y + rhs.y, self.z + rhs.z)
    }

    /// `self - rhs`, component by component.
    pub fn sub(&self, rhs: &Vector3D) -> (r: Vector3D)
        requires
            self@.sub(rhs@).fits(),
        ensures
            r@ == self@.sub(rhs@),
    {
        Vector3D::new(self.x - rhs.x, self.y - rhs.y, self.z - rhs.z)
    }

    /// `-self`.
    pub fn neg(&self) -> (r: Vector3D)
        requires
            self@.neg().fits(),
        ensures
            r@ == self@.neg(),
    {
        Vector3D::new(-self.x, -self.y, -self.z)
    }

    /// `self * s`: every component multiplied by the scalar `s`.
    pub fn mul(&self, s: i64) -> (r: Vector3D)
        requires
            self@.scale(s as int).fits(),
        ensures
            r@ == self@.scale(s as int),
    {
        Vector3D::new(self.x * s, self.y * s, self.z * s)
    }

    /// `s * v`: the scalar on the left, with the same result as `v * s`.
    pub fn scalar_mul(s: i64, v: &Vector3D) -> (r: Vector3D)
        requires
            v@.scale(s as int).fits(),
        ensures
            r@ == v@.scale(s as int),
    {
        v.mul(s)
    }

    /// `self / s`: every component divided by `s`, rounded toward zero.
    pub fn div(&self, s: i64) -> (r: Vector3D)
        requires
            s != 0,
            self@.div(s as int).fits(),
        ensures
            r@ == self@.div(s as int),
    {
        Vector3D::new(self.x / s, self.y / s, self.z / s)
    }

    /// The projection of `self` on the axis `rhs`, as a numerator vector and a
    /// divisor: the projection `rhs (self · rhs) / (rhs · rhs)` is the
    /// numerator `(self · rhs) rhs` divided by `rhs · rhs`. Both stay integral;
    /// the divisor is 0 exactly when `rhs` is zero.
    pub fn project(&self, rhs: &Vector3D) -> (r: (Vector3D, i64))
        requires
            self@.bounded(PROJECTION_BOUND as int),
            rhs@.bounded(PROJECTION_BOUND as int),
        ensures
            r.0@ == self@.project(rhs@),
            r.1 == rhs@.dot(rhs@),
    {
        proof {
            lemma_projection_bounded(self@, rhs@, rhs@);
            lemma_projection_bounded(rhs@, rhs@, rhs@);
        }
        (rhs.mul(self.dot(rhs)), rhs.dot(rhs))
    }

    /// The rejection of `self` from the axis `rhs`, its component orthogonal
    /// to `rhs`, as a numerator vector and a divisor: the numerator is
    /// `(rhs · rhs) self - (self · rhs) rhs` and the divisor `rhs · rhs`, the
    /// same as for the projection. The numerator is orthogonal to `rhs`, and
    /// the two numerators sum to `self` times the divisor.
    pub fn reject(&self, rhs: &Vector3D) -> (r: (Vector3D, i64))
        requires
            self@.bounded(PROJECTION_BOUND as int),
            rhs@.bounded(PROJECTION_BOUND as int),
        ensures
            r.0@ == self@.reject(rhs@),
            r.1 == rhs@.dot(rhs@),
            r.0@.dot(rhs@) == 0,
            self@.project(rhs@).add(r.0@) == self@.scale(r.1 as int),
    {
        proof {
            lemma_projection_bounded(self@, rhs@, rhs@);
            lemma_projection_bounded(rhs@, rhs@, self@);
            lemma_reject_orthogonal(self@, rhs@);
        }
        let (p, d) = self.project(rhs);
        (self.mul(d).sub(&p), d)
    }
}


/// A vector of four `i64` components, for homogeneous coordinates.
#[derive(Clone, Copy, Debug, PartialEq, Eq, Structural)]
pub struct Vector4D {
    pub x: i64,
    pub y: i64,
    pub z: i64,
    pub w: i64,
}

impl View for Vector4D {
    type V = Vec4;

    open spec fn view(&self) -> Vec4 {
        Vec4 { x: self.x as int, y: self.y as int, z: self.z as int, w: self.w as int }
    }
}

impl Vector4D {
    pub fn new(x: i64, y: i64, z: i64, w: i64) -> (r: Self)
        ensures
            r@ == Vec4::new(x as int, y as int, z as int, w as int),
    {
        Self { x, y, z, w }
    }

    /// The component at position `index`.
    pub fn at(&self, index: usize) -> (r: i64)
        requires
            index < 4,
        ensures
            r == self@.get(index as int),
    {
        if index == 0 {
            self.x
        } else if index == 1 {
            self.y
        } else if index == 2 {
            self.z
        } else {
            self.w
        }
    }

    pub fn dot(&self, rhs: &Vector4D) -> (r: i64)
        requires
            self@.bounded(PRODUCT_BOUND as int),
            rhs@.bounded(PRODUCT_BOUND as int),
        ensures
            r == self@.dot(rhs@),
    {
        proof {
            let b = PRODUCT_BOUND as int;
            lemma_mul_bounded(self.x as int, rhs.x as int, b, b);
            lemma_mul_bounded(self.y as int, rhs.y as int, b, b);
            lemma_mul_bounded(self.z as int, rhs.z as int, b, b);
            lemma_mul_bounded(self.w as int, rhs.w as int, b, b);
        }
        self.x * rhs.x + self.y * rhs.y + self.z * rhs.z + self.w * rhs.w
    }

    /// `self + rhs`, component by component.
    pub fn add(&self, rhs: &Vector4D) -> (r: Vector4D)
        requires
            self@.add(rhs@).fits(),
        ensures
            r@ == self@.add(rhs@),
    {
        Vector4D::new(self.x + rhs.x, self.y + rhs.y, self.z + rhs.z, self.w + rhs.w)
    }

    /// `self - rhs`, component by component.
    pub fn sub(&self, rhs: &Vector4D) -> (r: Vector4D)
        requires
            self@.sub(rhs@).fits(),
        ensures
            r@ == self@.sub(rhs@),
    {
        Vector4D::new(self.x - rhs.x, self.y - rhs.y, self.z - rhs.z, self.w - rhs.w)
    }

    /// `-self`.
    pub fn neg(&self) -> (r: Vector4D)
        requires
            self@.neg().fits(),
        ensures
            r@ == self@.neg(),
    {
        Vector4D::new(-self.x, -self.y, -self.z, -self.w)
    }

    /// `self * s`: every component multiplied by the scalar `s`.
    pub fn mul(&self, s: i64) -> (r: Vector4D)
        requires
            self@.scale(s as int).fits(),
        ensures
            r@ == self@.scale(s as int),
    {
        Vector4D::new(self.x * s, self.y * s, self.z * s, self.w * s)
    }

    /// `s * v`: the scalar on the left, with the same result as `v * s`.
    pub fn scalar_mul(s: i64, v: &Vector4D) -> (r: Vector4D)
        requires
            v@.scale(s as int).fits(),
        ensures
            r@ == v@.scale(s as int),
    {
        v.mul(s)
    }

    /// `self / s`: every component divided by `s`, rounded toward zero.
    pub fn div(&self, s: i64) -> (r: Vector4D)
        requires
            s != 0,
            self@.div(s as int).fits(),
        ensures
            r@ == self@.div(s as int),
    {
        Vector4D::new(self.x / s, self.y / s, self.z / s, self.w / s)
    }

    /// The projection of `self` on the axis `rhs`, as a numerator vector and a
    /// divisor: the projection `rhs (self · rhs) / (rhs · rhs)` is the
    /// numerator `(self · rhs) rhs` divided by `rhs · rhs`. Both stay integral;
    /// the divisor is 0 exactly when `rhs` is zero.
    pub fn project(&self, rhs: &Vector4D) -> (r: (Vector4D, i64))
        requires
            self@.bounded(PROJECTION_BOUND as int),
            rhs@.bounded(PROJECTION_BOUND as int),
        ensures
            r.0@ == self@.project(rhs@),
            r.1 == rhs@.dot(rhs@),
    {
        proof {
            lemma_projection_bounded4(self@, rhs@, rhs@);
            lemma_projection_bounded4(rhs@, rhs@, rhs@);
        }
        (rhs.mul(self.dot(rhs)), rhs.dot(rhs))
    }

    /// The rejection of `self` from the axis `rhs`, its component orthogonal
    /// to `rhs`, as a numerator vector and a divisor: the numerator is
    /// `(rhs · rhs) self - (self · rhs) rhs` and the divisor `rhs · rhs`, the
    /// same as for the projection. The numerator is orthogonal to `rhs`, and
    /// the two numerators sum to `self` times the divisor.
    pub fn reject(&self, rhs: &Vector4D) -> (r: (Vector4D, i64))
        requires
            self@.bounded(PROJECTION_BOUND as int),
            rhs@.bounded(PROJECTION_BOUND as int),
        ensures
            r.0@ == self@.reject(rhs@),
            r.1 == rhs@.dot(rhs@),
            r.0@.dot(rhs@) == 0,
            self@.project(rhs@).add(r.0@) == self@.scale(r.1 as int),
    {
        proof {
            lemma_projection_bounded4(self@, rhs@, rhs@);
            lemma_projection_bounded4(rhs@, rhs@, self@);
            lemma_reject_orthogonal4(self@, rhs@);
        }
        let (p, d) = self.project(rhs);
        (self.mul(d).sub(&p), d)
    }
}


/// With components bounded by `PROJECTION_BOUND`, a vector scaled by a dot
/// product stays well within `i64`.
proof fn lemma_projection_bounded(p: Vec3, q: Vec3, r: Vec3)
    requires
        p.bounded(PROJECTION_BOUND as int),
        q.bounded(PROJECTION_BOUND as int),
        r.bounded(PROJECTION_BOUND as int),
    ensures
        p.bounded(PRODUCT_BOUND as int),
        q.bounded(PRODUCT_BOUND as int),
        r.scale(p.dot(q)).bounded(PROJECTION_BOUND * (3 * (PROJECTION_BOUND * PROJECTION_BOUND))),
{
    let b = PROJECTION_BOUND as int;
    lemma_products_bounds(p, q, b, b);
    let k = p.dot(q);
    lemma_mul_bounded(r.x, k, b, 3 * (b * b));
    lemma_mul_bounded(r.y, k, b, 3 * (b * b));
    lemma_mul_bounded(r.z, k, b, 3 * (b * b));
}

/// The same for 4-vectors.
proof fn lemma_projection_bounded4(p: Vec4, q: Vec4, r: Vec4)
    requires
        p.bounded(PROJECTION_BOUND as int),
        q.bounded(PROJECTION_BOUND as int),
        r.bounded(PROJECTION_BOUND as int),
    ensures
        p.bounded(PRODUCT_BOUND as int),
        q.bounded(PRODUCT_BOUND as int),
        r.scale(p.dot(q)).bounded(PROJECTION_BOUND * (4 * (PROJECTION_BOUND * PROJECTION_BOUND))),
{
    let b = PROJECTION_BOUND as int;
    lemma_mul_bounded(p.x, q.x, b, b);
    lemma_mul_bounded(p.y, q.y, b, b);
    lemma_mul_bounded(p.z, q.z, b, b);
    lemma_mul_bounded(p.w, q.w, b, b);
    let k = p.dot(q);
    lemma_mul_bounded(r.x, k, b, 4 * (b * b));
    lemma_mul_bounded(r.y, k, b, 4 * (b * b));
    lemma_mul_bounded(r.z, k, b, 4 * (b * b));
    lemma_mul_bounded(r.w, k, b, 4 * (b * b));
}

/// The rejection is orthogonal to the axis.
pub(crate) proof fn lemma_reject_orthogonal(v: Vec3, a: Vec3)
    ensures
        v.reject(a).dot(a) == 0,
{
    let (aa, va) = (a.dot(a), v.dot(a));
    lemma_dot_linear(v.scale(aa), a.scale(va), a);
    lemma_dot_scale(v, a, aa);
    lemma_dot_scale(a, a, va);
    assert(aa * va == va * aa) by (nonlinear_arith);
}

/// The rejection of a 4-vector is orthogonal to the axis.
pub(crate) proof fn lemma_reject_orthogonal4(v: Vec4, a: Vec4)
    ensures
        v.reject(a).dot(a) == 0,
{
    assert((v.x * (a.x * a.x + a.y * a.y + a.z * a.z + a.w * a.w) - a.x * (v.x * a.x + v.y * a.y
        + v.z * a.z + v.w * a.w)) * a.x == (v.x * (a.x * a.x + a.y * a.y + a.z * a.z + a.w * a.w))
        * a.x - (a.x * (v.x * a.x + v.y * a.y + v.z * a.z + v.w * a.w)) * a.x) by (nonlinear_arith);
    assert((v.x * (a.x * a.x + a.y * a.y + a.z * a.z + a.w * a.w)) * a.x == v.x * (a.x * a.x) * a.x
        + v.x * (a.y * a.y) * a.x + v.x * (a.z * a.z) * a.x + v.x * (a.w * a.w)
        * a.x) by (nonlinear_arith);
    assert(v.x * (a.x * a.x) * a.x == a.x * a.x * a.x * v.x) by (nonlinear_arith);
    assert(v.x * (a.y * a.y) * a.x == a.x * a.y * a.y * v.x) by (nonlinear_arith);
    assert(v.x * (a.z * a.z) * a.x == a.x * a.z * a.z * v.x) by (nonlinear_arith);
    assert(v.x * (a.w * a.w) * a.x == a.w * a.w * a.x * v.x) by (nonlinear_arith);
    assert((a.x * (v.x * a.x + v.y * a.y + v.z * a.z + v.w * a.w)) * a.x == a.x * (v.x * a.x) * a.x
        + a.x * (v.y * a.y) * a.x + a.x * (v.z * a.z) * a.x + a.x * (v.w * a.w)
        * a.x) by (nonlinear_arith);
    assert(a.x * (v.x * a.x) * a.x == a.x * a.x * a.x * v.x) by (nonlinear_arith);
    assert(a.x * (v.y * a.y) * a.x == a.x * a.x * a.y * v.y) by (nonlinear_arith);
    assert(a.x * (v.z * a.z) * a.x == a.x * a.x * a.z * v.z) by (nonlinear_arith);
    assert(a.x * (v.w * a.w) * a.x == a.w * a.x * a.x * v.w) by (nonlinear_arith);
    assert((v.y * (a.x * a.x + a.y * a.y + a.z * a.z + a.w * a.w) - a.y * (v.x * a.x + v.y * a.y
        + v.z * a.z + v.w * a.w)) * a.y == (v.y * (a.x * a.x + a.y * a.y + a.z * a.z + a.w * a.w))
        * a.y - (a.y * (v.x * a.x + v.y * a.y + v.z * a.z + v.w * a.w)) * a.y) by (nonlinear_arith);
    assert((v.y * (a.x * a.x + a.y * a.y + a.z * a.z + a.w * a.w)) * a.y == v.y * (a.x * a.x) * a.y
        + v.y * (a.y * a.y) * a.y + v.y * (a.z * a.z) * a.y + v.y * (a.w * a.w)
        * a.y) by (nonlinear_arith);
    assert(v.y * (a.x * a.x) * a.y == a.x * a.x * a.y * v.y) by (nonlinear_arith);
    assert(v.y * (a.y * a.y) * a.y == a.y * a.y * a.y * v.y) by (nonlinear_arith);
    assert(v.y * (a.z * a.z) * a.y == a.y * a.z * a.z * v.y) by (nonlinear_arith);
    assert(v.y * (a.w * a.w) * a.y == a.w * a.w * a.y * v.y) by (nonlinear_arith);
    assert((a.y * (v.x * a.x + v.y * a.y + v.z * a.z + v.w * a.w)) * a.y == a.y * (v.x * a.x) * a.y
        + a.y * (v.y * a.y) * a.y + a.y * (v.z * a.z) * a.y + a.y * (v.w * a.w)
        * a.y) by (nonlinear_arith);
    assert(a.y * (v.x * a.x) * a.y == a.x * a.y * a.y * v.x) by (nonlinear_arith);
    assert(a.y * (v.y * a.y) * a.y == a.y * a.y * a.y * v.y) by (nonlinear_arith);
    assert(a.y * (v.z * a.z) * a.y == a.y * a.y * a.z * v.z) by (nonlinear_arith);
    assert(a.y * (v.w * a.w) * a.y == a.w * a.y * a.y * v.w) by (nonlinear_arith);
    assert((v.z * (a.x * a.x + a.y * a.y + a.z * a.z + a.w * a.w) - a.z * (v.x * a.x + v.y * a.y
        + v.z * a.z + v.w * a.w)) * a.z == (v.z * (a.x * a.x + a.y * a.y + a.z * a.z + a.w * a.w))
        * a.z - (a.z * (v.x * a.x + v.y * a.y + v.z * a.z + v.w * a.w)) * a.z) by (nonlinear_arith);
    assert((v.z * (a.x * a.x + a.y * a.y + a.z * a.z + a.w * a.w)) * a.z == v.z * (a.x * a.x) * a.z
        + v.z * (a.y * a.y) * a.z + v.z * (a.z * a.z) * a.z + v.z * (a.w * a.w)
        * a.z) by (nonlinear_arith);
    assert(v.z * (a.x * a.x) * a.z == a.x * a.x * a.z * v.z) by (nonlinear_arith);
    assert(v.z * (a.y * a.y) * a.z == a.y * a.y * a.z * v.z) by (nonlinear_arith);
    assert(v.z * (a.z * a.z) * a.z == a.z * a.z * a.z * v.z) by (nonlinear_arith);
    assert(v.z * (a.w * a.w) * a.z == a.w * a.w * a.z * v.z) by (nonlinear_arith);
    assert((a.z * (v.x * a.x + v.y * a.y + v.z * a.z + v.w * a.w)) * a.z == a.z * (v.x * a.x) * a.z
        + a.z * (v.y * a.y) * a.z + a.z * (v.z * a.z) * a.z + a.z * (v.w * a.w)
        * a.z) by (nonlinear_arith);
    assert(a.z * (v.x * a.x) * a.z == a.x * a.z * a.z * v.x) by (nonlinear_arith);
    assert(a.z * (v.y * a.y) * a.z == a.y * a.z * a.z * v.y) by (nonlinear_arith);
    assert(a.z * (v.z * a.z) * a.z == a.z * a.z * a.z * v.z) by (nonlinear_arith);
    assert(a.z * (v.w * a.w) * a.z == a.w * a.z * a.z * v.w) by (nonlinear_arith);
    assert((v.w * (a.x * a.x + a.y * a.y + a.z * a.z + a.w * a.w) - a.w * (v.x * a.x + v.y * a.y
        + v.z * a.z + v.w * a.w)) * a.w == (v.w * (a.x * a.x + a.y * a.y + a.z * a.z + a.w * a.w))
        * a.w - (a.w * (v.x * a.x + v.y * a.y + v.z * a.z + v.w * a.w)) * a.w) by (nonlinear_arith);
    assert((v.w * (a.x * a.x + a.y * a.y + a.z * a.z + a.w * a.w)) * a.w == v.w * (a.x * a.x) * a.w
        + v.w * (a.y * a.y) * a.w + v.w * (a.z * a.z) * a.w + v.w * (a.w * a.w)
        * a.w) by (nonlinear_arith);
    assert(v.w * (a.x * a.x) * a.w == a.w * a.x * a.x * v.w) by (nonlinear_arith);
    assert(v.w * (a.y * a.y) * a.w == a.w * a.y * a.y * v.w) by (nonlinear_arith);
    assert(v.w * (a.z * a.z) * a.w == a.w * a.z * a.z * v.w) by (nonlinear_arith);
    assert(v.w * (a.w * a.w) * a.w == a.w * a.w * a.w * v.w) by (nonlinear_arith);
    assert((a.w * (v.x * a.x + v.y * a.y + v.z * a.z + v.w * a.w)) * a.w == a.w * (v.x * a.x) * a.w
        + a.w * (v.y * a.y) * a.w + a.w * (v.z * a.z) * a.w + a.w * (v.w * a.w)
        * a.w) by (nonlinear_arith);
    assert(a.w * (v.x * a.x) * a.w == a.w * a.w * a.x * v.x) by (nonlinear_arith);
    assert(a.w * (v.y * a.y) * a.w == a.w * a.w * a.y * v.y) by (nonlinear_arith);
    assert(a.w * (v.z * a.z) * a.w == a.w * a.w * a.z * v.z) by (nonlinear_arith);
    assert(a.w * (v.w * a.w) * a.w == a.w * a.w * a.w * v.w) by (nonlinear_arith);
}

} // verus!
