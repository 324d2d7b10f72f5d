//! The mathematical model: vectors and matrices over unbounded integers.
//! Every executable operation of the crate is specified against these.

use vstd::prelude::*;

verus! {

/// Whether an integer can be held in an `i64`.
pub open spec fn in_i64(v: int) -> bool {
    i64::MIN <= v <= i64::MAX
}

/// Integer division rounding toward zero, as Rust's `/` on signed integers.
/// (`/` on `int` is Euclidean division, which agrees with it for a
/// non-negative dividend.)
pub open spec fn div_toward_zero(a: int, b: int) -> int {
    if a >= 0 {
        a / b
    } else {
        -((-a) / b)
    }
}

/// A vector of three-dimensional integer space.
pub struct Vec3 {
    pub x: int,
    pub y: int,
    pub z: int,
}

impl Vec3 {
    pub open spec fn new(x: int, y: int, z: int) -> Vec3 {
        Vec3 { x, y, z }
    }

    pub open spec fn zero() -> Vec3 {
        Vec3 { x: 0, y: 0, z: 0 }
    }

    /// The component at position `i` (0, 1 or 2).
    pub open spec fn get(self, i: int) -> int {
        if i == 0 { self.x } else if i == 1 { self.y } else { self.z }
    }

    pub open spec fn add(self, o: Vec3) -> Vec3 {
        Vec3 { x: self.x + o.x, y: self.y + o.y, z: self.z + o.z }
    }

    pub open spec fn sub(self, o: Vec3) -> Vec3 {
        Vec3 { x: self.x - o.x, y: self.y - o.y, z: self.z - o.z }
    }

    pub open spec fn neg(self) -> Vec3 {
        Vec3 { x: -self.x, y: -self.y, z: -self.z }
    }

    pub open spec fn scale(self, k: int) -> Vec3 {
        Vec3 { x: self.x * k, y: self.y * k, z: self.z * k }
    }

    pub open spec fn div(self, k: int) -> Vec3 {
        Vec3 {
            x: div_toward_zero(self.x, k),
            y: div_toward_zero(self.y, k),
            z: div_toward_zero(self.z, k),
        }
    }

    #[verifier::opaque]
    pub open spec fn dot(self, o: Vec3) -> int {
        self.x * o.x + self.y * o.y + self.z * o.z
    }

    /// The right-handed cross product.
    #[verifier::opaque]
    pub open spec fn cross(self, o: Vec3) -> Vec3 {
        Vec3 {
            x: self.y * o.z - self.z * o.y,
            y: self.z * o.x - self.x * o.z,
            z: self.x * o.y - self.y * o.x,
        }
    }

    /// The numerator of the projection of `self` on `axis`: the projection
    /// `(self · axis) axis / (axis · axis)` times its divisor `axis · axis`.
    pub open spec fn project(self, axis: Vec3) -> Vec3 {
        axis.scale(self.dot(axis))
    }

    /// The numerator of the rejection of `self` from `axis` (its component
    /// orthogonal to `axis`) over the divisor `axis · axis`:
    /// `(axis · axis) self - (self · axis) axis`.
    pub open spec fn reject(self, axis: Vec3) -> Vec3 {
        self.scale(axis.dot(axis)).sub(self.project(axis))
    }

    /// Every component lies in `[-b, b]`.
    pub open spec fn bounded(self, b: int) -> bool {
        -b <= self.x <= b && -b <= self.y <= b && -b <= self.z <= b
    }

    /// Every component can be held in an `i64`.
    pub open spec fn fits(self) -> bool {
        in_i64(self.x) && in_i64(self.y) && in_i64(self.z)
    }
}

/// A vector of four-dimensional integer space (homogeneous coordinates).
pub struct Vec4 {
    pub x: int,
    pub y: int,
    pub z: int,
    pub w: int,
}

impl Vec4 {
    pub open spec fn new(x: int, y: int, z: int, w: int) -> Vec4 {
        Vec4 { x, y, z, w }
    }

    pub open spec fn zero() -> Vec4 {
        Vec4 { x: 0, y: 0, z: 0, w: 0 }
    }

    /// The component at position `i` (0 to 3).
    pub open spec fn get(self, i: int) -> int {
        if i == 0 { self.x } else if i == 1 { self.y } else if i == 2 { self.z } else { self.w }
    }

    pub open spec fn add(self, o: Vec4) -> Vec4 {
        Vec4 { x: self.x + o.x, y: self.y + o.y, z: self.z + o.z, w: self.w + o.w }
    }

    pub open spec fn sub(self, o: Vec4) -> Vec4 {
        Vec4 { x: self.x - o.x, y: self.y - o.y, z: self.z - o.z, w: self.w - o.w }
    }

    pub open spec fn neg(self) -> Vec4 {
        Vec4 { x: -self.x, y: -self.y, z: -self.z, w: -self.w }
    }

    pub open spec fn scale(self, k: int) -> Vec4 {
        Vec4 { x: self.x * k, y: self.y * k, z: self.z * k, w: self.w * k }
    }

    pub open spec fn div(self, k: int) -> Vec4 {
        Vec4 {
            x: div_toward_zero(self.x, k),
            y: div_toward_zero(self.y, k),
            z: div_toward_zero(self.z, k),
            w: div_toward_zero(self.w, k),
        }
    }

    pub open spec fn dot(self, o: Vec4) -> int {
        self.x * o.x + self.y * o.y + self.z * o.z + self.w * o.w
    }

    /// The numerator of the projection of `self` on `axis`: the projection
    /// `(self · axis) axis / (axis · axis)` times its divisor `axis · axis`.
    pub open spec fn project(self, axis: Vec4) -> Vec4 {
        axis.scale(self.dot(axis))
    }

    /// The numerator of the rejection of `self` from `axis` (its component
    /// orthogonal to `axis`) over the divisor `axis · axis`:
    /// `(axis · axis) self - (self · axis) axis`.
    pub open spec fn reject(self, axis: Vec4) -> Vec4 {
        self.scale(axis.dot(axis)).sub(self.project(axis))
    }

    pub open spec fn bounded(self, b: int) -> bool {
        -b <= self.x <= b && -b <= self.y <= b && -b <= self.z <= b && -b <= self.w <= b
    }

    pub open spec fn fits(self) -> bool {
        in_i64(self.x) && in_i64(self.y) && in_i64(self.z) && in_i64(self.w)
    }
}

/// A 3×3 integer matrix, given by its rows.
pub struct Mat3 {
    pub r0: Vec3,
    pub r1: Vec3,
    pub r2: Vec3,
}

impl Mat3 {
    pub open spec fn from_rows(r0: Vec3, r1: Vec3, r2: Vec3) -> Mat3 {
        Mat3 { r0, r1, r2 }
    }

    pub open spec fn identity() -> Mat3 {
        Mat3 { r0: Vec3::new(1, 0, 0), r1: Vec3::new(0, 1, 0), r2: Vec3::new(0, 0, 1) }
    }

    /// Row `i` (0, 1 or 2).
    pub open spec fn row(self, i: int) -> Vec3 {
        if i == 0 { self.r0 } else if i == 1 { self.r1 } else { self.r2 }
    }

    /// The entry in row `i`, column `j`.
    pub open spec fn entry(self, i: int, j: int) -> int {
        self.row(i).get(j)
    }

    /// Column `j`.
    pub open spec fn col(self, j: int) -> Vec3 {
        Vec3 { x: self.r0.get(j), y: self.r1.get(j), z: self.r2.get(j) }
    }

    pub open spec fn transpose(self) -> Mat3 {
        Mat3 { r0: self.col(0), r1: self.col(1), r2: self.col(2) }
    }

    pub open spec fn add(self, o: Mat3) -> Mat3 {
        Mat3 { r0: self.r0.add(o.r0), r1: self.r1.add(o.r1), r2: self.r2.add(o.r2) }
    }

    pub open spec fn sub(self, o: Mat3) -> Mat3 {
        Mat3 { r0: self.r0.sub(o.r0), r1: self.r1.sub(o.r1), r2: self.r2.sub(o.r2) }
    }

    pub open spec fn scale(self, k: int) -> Mat3 {
        Mat3 { r0: self.r0.scale(k), r1: self.r1.scale(k), r2: self.r2.scale(k) }
    }

    /// The image of `v` under the linear map: each entry is a row dotted with `v`.
    pub open spec fn apply(self, v: Vec3) -> Vec3 {
        Vec3 { x: self.r0.dot(v), y: self.r1.dot(v), z: self.r2.dot(v) }
    }

    /// The matrix product `self * o`: entry `(i, j)` is row `i` of `self`
    /// dotted with column `j` of `o`.
    pub open spec fn mul(self, o: Mat3) -> Mat3 {
        let t = o.transpose();
        Mat3 { r0: t.apply(self.r0), r1: t.apply(self.r1), r2: t.apply(self.r2) }
    }

    /// The outer product `p qᵀ`: entry `(i, j)` is `p[i] * q[j]`.
    pub open spec fn outer(p: Vec3, q: Vec3) -> Mat3 {
        Mat3 { r0: q.scale(p.x), r1: q.scale(p.y), r2: q.scale(p.z) }
    }

    /// The matrix of `v ↦ p × v`.
    pub open spec fn cross_matrix(p: Vec3) -> Mat3 {
        Mat3 { r0: Vec3::new(0, -p.z, p.y), r1: Vec3::new(p.z, 0, -p.x), r2: Vec3::new(-p.y, p.x,
            0) }
    }

    /// The determinant, by the six-term expansion.
    pub open spec fn det(self) -> int {
        self.r0.x * self.r1.y * self.r2.z + self.r0.y * self.r1.z * self.r2.x + self.r0.z
            * self.r1.x * self.r2.y - self.r0.x * self.r1.z * self.r2.y - self.r0.y * self.r1.x
            * self.r2.z - self.r0.z * self.r1.y * self.r2.x
    }

    pub open spec fn bounded(self, b: int) -> bool {
        self.r0.bounded(b) && self.r1.bounded(b) && self.r2.bounded(b)
    }

    pub open spec fn fits(self) -> bool {
        self.r0.fits() && self.r1.fits() && self.r2.fits()
    }
}

/// A 4×4 integer matrix, given by its rows.
pub struct Mat4 {
    pub r0: Vec4,
    pub r1: Vec4,
    pub r2: Vec4,
    pub r3: Vec4,
}

impl Mat4 {
    pub open spec fn from_rows(r0: Vec4, r1: Vec4, r2: Vec4, r3: Vec4) -> Mat4 {
        Mat4 { r0, r1, r2, r3 }
    }

    pub open spec fn identity() -> Mat4 {
        Mat4 {
            r0: Vec4::new(1, 0, 0, 0),
            r1: Vec4::new(0, 1, 0, 0),
            r2: Vec4::new(0, 0, 1, 0),
            r3: Vec4::new(0, 0, 0, 1),
        }
    }

    /// Row `i` (0 to 3).
    pub open spec fn row(self, i: int) -> Vec4 {
        if i == 0 { self.r0 } else if i == 1 { self.r1 } else if i == 2 { self.r2 } else { self.r3 }
    }

    /// The entry in row `i`, column `j`.
    pub open spec fn entry(self, i: int, j: int) -> int {
        self.row(i).get(j)
    }

    /// Column `j`.
    pub open spec fn col(self, j: int) -> Vec4 {
        Vec4 { x: self.r0.get(j), y: self.r1.get(j), z: self.r2.get(j), w: self.r3.get(j) }
    }

    /// The upper three entries of column `j`.
    pub open spec fn upper(self, j: int) -> Vec3 {
        Vec3 { x: self.r0.get(j), y: self.r1.get(j), z: self.r2.get(j) }
    }

    pub open spec fn transpose(self) -> Mat4 {
        Mat4 { r0: self.col(0), r1: self.col(1), r2: self.col(2), r3: self.col(3) }
    }

    pub open spec fn add(self, o: Mat4) -> Mat4 {
        Mat4 {
            r0: self.r0.add(o.r0),
            r1: self.r1.add(o.r1),
            r2: self.r2.add(o.r2),
            r3: self.r3.add(o.r3),
        }
    }

    pub open spec fn sub(self, o: Mat4) -> Mat4 {
        Mat4 {
            r0: self.r0.sub(o.r0),
            r1: self.r1.sub(o.r1),
            r2: self.r2.sub(o.r2),
            r3: self.r3.sub(o.r3),
        }
    }

    pub open spec fn scale(self, k: int) -> Mat4 {
        Mat4 { r0: self.r0.scale(k), r1: self.r1.scale(k), r2: self.r2.scale(k),
            r3: self.r3.scale(k) }
    }

    /// The image of `v`: each entry is a row dotted with `v`.
    pub open spec fn apply(self, v: Vec4) -> Vec4 {
        Vec4 { x: self.r0.dot(v), y: self.r1.dot(v), z: self.r2.dot(v), w: self.r3.dot(v) }
    }

    /// The matrix product `self * o`.
    pub open spec fn mul(self, o: Mat4) -> Mat4 {
        let t = o.transpose();
        Mat4 { r0: t.apply(self.r0), r1: t.apply(self.r1), r2: t.apply(self.r2),
            r3: t.apply(self.r3) }
    }

    /// The determinant, by the 24-term expansion over permutations.
    pub open spec fn det(self) -> int {
        let (a, b, c, d) = (self.r0, self.r1, self.r2, self.r3);
        a.x * b.y * c.z * d.w + a.x * b.z * c.w * d.y + a.x * b.w * c.y * d.z
            - a.x * b.w * c.z * d.y - a.x * b.z * c.y * d.w - a.x * b.y * c.w * d.z
            - a.y * b.x * c.z * d.w - a.z * b.x * c.w * d.y - a.w * b.x * c.y * d.z
            + a.w * b.x * c.z * d.y + a.z * b.x * c.y * d.w + a.y * b.x * c.w * d.z
            + a.y * b.z * c.x * d.w + a.z * b.w * c.x * d.y + a.w * b.y * c.x * d.z
            - a.w * b.z * c.x * d.y - a.z * b.y * c.x * d.w - a.y * b.w * c.x * d.z
            - a.y * b.z * c.w * d.x - a.z * b.w * c.y * d.x - a.w * b.y * c.z * d.x
            + a.w * b.z * c.y * d.x + a.z * b.y * c.w * d.x + a.y * b.w * c.z * d.x
    }

    pub open spec fn bounded(self, b: int) -> bool {
        self.r0.bounded(b) && self.r1.bounded(b) && self.r2.bounded(b) && self.r3.bounded(b)
    }

    pub open spec fn fits(self) -> bool {
        self.r0.fits() && self.r1.fits() && self.r2.fits() && self.r3.fits()
    }
}

/// A bound on a product from bounds on its factors.
pub proof fn lemma_mul_bounded(a: int, b: int, ba: int, bb: int)
    by (nonlinear_arith)
    requires
        -ba <= a <= ba,
        -bb <= b <= bb,
    ensures
        -(ba * bb) <= a * b <= ba * bb,
{
}

} // verus!
