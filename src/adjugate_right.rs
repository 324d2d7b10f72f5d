//! The block adjugate on the right of the matrix: each entry of `m` times
//! the adjugate, expanded into monomials of the entries of `m`.

use vstd::prelude::*;
use crate::algebra::{Vec3, Mat4};
use crate::blocks::block_adjugate;

verus! {

proof fn lemma_right_entry_00(a: Vec3, b: Vec3, c: Vec3, d: Vec3, x: int, y: int, z: int, w: int)
    ensures
        (b.y * (c.z * w - (d.z * z)) - b.z * (c.y * w - (d.y * z)) + ((c.y * d.z - c.z * d.y) * y))
            * a.x + ((c.y * w - (d.y * z)) * a.z - (c.z * w - (d.z * z)) * a.y - ((c.y * d.z - c.z
            * d.y) * x)) * b.x + (d.y * (a.z * y - (b.z * x)) - d.z * (a.y * y - (b.y * x)) + ((a.y
            * b.z - a.z * b.y) * w)) * c.x + ((a.y * y - (b.y * x)) * c.z - (a.z * y - (b.z * x))
            * c.y - ((a.y * b.z - a.z * b.y) * z)) * d.x == a.x * b.y * c.z * w + a.x * c.y * d.z
            * y + a.x * d.y * b.z * z - a.x * d.y * c.z * y - a.x * c.y * b.z * w - a.x * b.y * d.z
            * z - b.x * a.y * c.z * w - c.x * a.y * d.z * y - d.x * a.y * b.z * z + d.x * a.y * c.z
            * y + c.x * a.y * b.z * w + b.x * a.y * d.z * z + b.x * c.y * a.z * w + c.x * d.y * a.z
            * y + d.x * b.y * a.z * z - d.x * c.y * a.z * y - c.x * b.y * a.z * w - b.x * d.y * a.z
            * z - b.x * c.y * d.z * x - c.x * d.y * b.z * x - d.x * b.y * c.z * x + d.x * c.y * b.z
            * x + c.x * b.y * d.z * x + b.x * d.y * c.z * x,
{
    assert((b.y * (c.z * w - (d.z * z)) - b.z * (c.y * w - (d.y * z)) + ((c.y * d.z - c.z * d.y)
        * y)) * a.x == (b.y * (c.z * w - (d.z * z))) * a.x - (b.z * (c.y * w - (d.y * z))) * a.x
        + (((c.y * d.z - c.z * d.y) * y)) * a.x) by (nonlinear_arith);
    assert((b.y * (c.z * w - (d.z * z))) * a.x == b.y * (c.z * w) * a.x - b.y * ((d.z * z))
        * a.x) by (nonlinear_arith);
    assert(b.y * (c.z * w) * a.x == a.x * b.y * c.z * w) by (nonlinear_arith);
    assert(b.y * ((d.z * z)) * a.x == a.x * b.y * d.z * z) by (nonlinear_arith);
    assert((b.z * (c.y * w - (d.y * z))) * a.x == b.z * (c.y * w) * a.x - b.z * ((d.y * z))
        * a.x) by (nonlinear_arith);
    assert(b.z * (c.y * w) * a.x == a.x * b.z * c.y * w) by (nonlinear_arith);
    assert(b.z * ((d.y * z)) * a.x == a.x * b.z * d.y * z) by (nonlinear_arith);
    assert((((c.y * d.z - c.z * d.y) * y)) * a.x == (c.y * d.z) * y * a.x - (c.z * d.y) * y
        * a.x) by (nonlinear_arith);
    assert((c.y * d.z) * y * a.x == a.x * c.y * d.z * y) by (nonlinear_arith);
    assert((c.z * d.y) * y * a.x == a.x * c.z * d.y * y) by (nonlinear_arith);
    assert(((c.y * w - (d.y * z)) * a.z - (c.z * w - (d.z * z)) * a.y - ((c.y * d.z - c.z * d.y)
        * x)) * b.x == ((c.y * w - (d.y * z)) * a.z) * b.x - ((c.z * w - (d.z * z)) * a.y) * b.x
        - (((c.y * d.z - c.z * d.y) * x)) * b.x) by (nonlinear_arith);
    assert(((c.y * w - (d.y * z)) * a.z) * b.x == (c.y * w) * a.z * b.x - ((d.y * z)) * a.z
        * b.x) by (nonlinear_arith);
    assert((c.y * w) * a.z * b.x == a.z * b.x * c.y * w) by (nonlinear_arith);
    assert(((d.y * z)) * a.z * b.x == a.z * b.x * d.y * z) by (nonlinear_arith);
    assert(((c.z * w - (d.z * z)) * a.y) * b.x == (c.z * w) * a.y * b.x - ((d.z * z)) * a.y
        * b.x) by (nonlinear_arith);
    assert((c.z * w) * a.y * b.x == a.y * b.x * c.z * w) by (nonlinear_arith);
    assert(((d.z * z)) * a.y * b.x == a.y * b.x * d.z * z) by (nonlinear_arith);
    assert((((c.y * d.z - c.z * d.y) * x)) * b.x == (c.y * d.z) * x * b.x - (c.z * d.y) * x
        * b.x) by (nonlinear_arith);
    assert((c.y * d.z) * x * b.x == b.x * c.y * d.z * x) by (nonlinear_arith);
    assert((c.z * d.y) * x * b.x == b.x * c.z * d.y * x) by (nonlinear_arith);
    assert((d.y * (a.z * y - (b.z * x)) - d.z * (a.y * y - (b.y * x)) + ((a.y * b.z - a.z * b.y)
        * w)) * c.x == (d.y * (a.z * y - (b.z * x))) * c.x - (d.z * (a.y * y - (b.y * x))) * c.x
        + (((a.y * b.z - a.z * b.y) * w)) * c.x) by (nonlinear_arith);
    assert((d.y * (a.z * y - (b.z * x))) * c.x == d.y * (a.z * y) * c.x - d.y * ((b.z * x))
        * c.x) by (nonlinear_arith);
    assert(d.y * (a.z * y) * c.x == a.z * c.x * d.y * y) by (nonlinear_arith);
    assert(d.y * ((b.z * x)) * c.x == b.z * c.x * d.y * x) by (nonlinear_arith);
    assert((d.z * (a.y * y - (b.y * x))) * c.x == d.z * (a.y * y) * c.x - d.z * ((b.y * x))
        * c.x) by (nonlinear_arith);
    assert(d.z * (a.y * y) * c.x == a.y * c.x * d.z * y) by (nonlinear_arith);
    assert(d.z * ((b.y * x)) * c.x == b.y * c.x * d.z * x) by (nonlinear_arith);
    assert((((a.y * b.z - a.z * b.y) * w)) * c.x == (a.y * b.z) * w * c.x - (a.z * b.y) * w
        * c.x) by (nonlinear_arith);
    assert((a.y * b.z) * w * c.x == a.y * b.z * c.x * w) by (nonlinear_arith);
    assert((a.z * b.y) * w * c.x == a.z * b.y * c.x * w) by (nonlinear_arith);
    assert(((a.y * y - (b.y * x)) * c.z - (a.z * y - (b.z * x)) * c.y - ((a.y * b.z - a.z * b.y)
        * z)) * d.x == ((a.y * y - (b.y * x)) * c.z) * d.x - ((a.z * y - (b.z * x)) * c.y) * d.x
        - (((a.y * b.z - a.z * b.y) * z)) * d.x) by (nonlinear_arith);
    assert(((a.y * y - (b.y * x)) * c.z) * d.x == (a.y * y) * c.z * d.x - ((b.y * x)) * c.z
        * d.x) by (nonlinear_arith);
    assert((a.y * y) * c.z * d.x == a.y * c.z * d.x * y) by (nonlinear_arith);
    assert(((b.y * x)) * c.z * d.x == b.y * c.z * d.x * x) by (nonlinear_arith);
    assert(((a.z * y - (b.z * x)) * c.y) * d.x == (a.z * y) * c.y * d.x - ((b.z * x)) * c.y
        * d.x) by (nonlinear_arith);
    assert((a.z * y) * c.y * d.x == a.z * c.y * d.x * y) by (nonlinear_arith);
    assert(((b.z * x)) * c.y * d.x == b.z * c.y * d.x * x) by (nonlinear_arith);
    assert((((a.y * b.z - a.z * b.y) * z)) * d.x == (a.y * b.z) * z * d.x - (a.z * b.y) * z
        * d.x) by (nonlinear_arith);
    assert((a.y * b.z) * z * d.x == a.y * b.z * d.x * z) by (nonlinear_arith);
    assert((a.z * b.y) * z * d.x == a.z * b.y * d.x * z) by (nonlinear_arith);
    assert(a.x * d.y * b.z * z == a.x * b.z * d.y * z) by (nonlinear_arith);
    assert(a.x * d.y * c.z * y == a.x * c.z * d.y * y) by (nonlinear_arith);
    assert(a.x * c.y * b.z * w == a.x * b.z * c.y * w) by (nonlinear_arith);
    assert(b.x * a.y * c.z * w == a.y * b.x * c.z * w) by (nonlinear_arith);
    assert(c.x * a.y * d.z * y == a.y * c.x * d.z * y) by (nonlinear_arith);
    assert(d.x * a.y * b.z * z == a.y * b.z * d.x * z) by (nonlinear_arith);
    assert(d.x * a.y * c.z * y == a.y * c.z * d.x * y) by (nonlinear_arith);
    assert(c.x * a.y * b.z * w == a.y * b.z * c.x * w) by (nonlinear_arith);
    assert(b.x * a.y * d.z * z == a.y * b.x * d.z * z) by (nonlinear_arith);
    assert(b.x * c.y * a.z * w == a.z * b.x * c.y * w) by (nonlinear_arith);
    assert(c.x * d.y * a.z * y == a.z * c.x * d.y * y) by (nonlinear_arith);
    assert(d.x * b.y * a.z * z == a.z * b.y * d.x * z) by (nonlinear_arith);
    assert(d.x * c.y * a.z * y == a.z * c.y * d.x * y) by (nonlinear_arith);
    assert(c.x * b.y * a.z * w == a.z * b.y * c.x * w) by (nonlinear_arith);
    assert(b.x * d.y * a.z * z == a.z * b.x * d.y * z) by (nonlinear_arith);
    assert(c.x * d.y * b.z * x == b.z * c.x * d.y * x) by (nonlinear_arith);
    assert(d.x * b.y * c.z * x == b.y * c.z * d.x * x) by (nonlinear_arith);
    assert(d.x * c.y * b.z * x == b.z * c.y * d.x * x) by (nonlinear_arith);
    assert(c.x * b.y * d.z * x == b.y * c.x * d.z * x) by (nonlinear_arith);
    assert(b.x * d.y * c.z * x == b.x * c.z * d.y * x) by (nonlinear_arith);
}

proof fn lemma_right_entry_01(a: Vec3, b: Vec3, c: Vec3, d: Vec3, x: int, y: int, z: int, w: int)
    ensures
        (b.z * (c.x * w - (d.x * z)) - b.x * (c.z * w - (d.z * z)) + ((c.z * d.x - c.x * d.z) * y))
            * a.x + ((c.z * w - (d.z * z)) * a.x - (c.x * w - (d.x * z)) * a.z - ((c.z * d.x - c.x
            * d.z) * x)) * b.x + (d.z * (a.x * y - (b.x * x)) - d.x * (a.z * y - (b.z * x)) + ((a.z
            * b.x - a.x * b.z) * w)) * c.x + ((a.z * y - (b.z * x)) * c.x - (a.x * y - (b.x * x))
            * c.z - ((a.z * b.x - a.x * b.z) * z)) * d.x == 0,
{
    assert((b.z * (c.x * w - (d.x * z)) - b.x * (c.z * w - (d.z * z)) + ((c.z * d.x - c.x * d.z)
        * y)) * a.x == (b.z * (c.x * w - (d.x * z))) * a.x - (b.x * (c.z * w - (d.z * z))) * a.x
        + (((c.z * d.x - c.x * d.z) * y)) * a.x) by (nonlinear_arith);
    assert((b.z * (c.x * w - (d.x * z))) * a.x == b.z * (c.x * w) * a.x - b.z * ((d.x * z))
        * a.x) by (nonlinear_arith);
    assert(b.z * (c.x * w) * a.x == a.x * b.z * c.x * w) by (nonlinear_arith);
    assert(b.z * ((d.x * z)) * a.x == a.x * b.z * d.x * z) by (nonlinear_arith);
    assert((b.x * (c.z * w - (d.z * z))) * a.x == b.x * (c.z * w) * a.x - b.x * ((d.z * z))
        * a.x) by (nonlinear_arith);
    assert(b.x * (c.z * w) * a.x == a.x * b.x * c.z * w) by (nonlinear_arith);
    assert(b.x * ((d.z * z)) * a.x == a.x * b.x * d.z * z) by (nonlinear_arith);
    assert((((c.z * d.x - c.x * d.z) * y)) * a.x == (c.z * d.x) * y * a.x - (c.x * d.z) * y
        * a.x) by (nonlinear_arith);
    assert((c.z * d.x) * y * a.x == a.x * c.z * d.x * y) by (nonlinear_arith);
    assert((c.x * d.z) * y * a.x == a.x * c.x * d.z * y) by (nonlinear_arith);
    assert(((c.z * w - (d.z * z)) * a.x - (c.x * w - (d.x * z)) * a.z - ((c.z * d.x - c.x * d.z)
        * x)) * b.x == ((c.z * w - (d.z * z)) * a.x) * b.x - ((c.x * w - (d.x * z)) * a.z) * b.x
        - (((c.z * d.x - c.x * d.z) * x)) * b.x) by (nonlinear_arith);
    assert(((c.z * w - (d.z * z)) * a.x) * b.x == (c.z * w) * a.x * b.x - ((d.z * z)) * a.x
        * b.x) by (nonlinear_arith);
    assert((c.z * w) * a.x * b.x == a.x * b.x * c.z * w) by (nonlinear_arith);
    assert(((d.z * z)) * a.x * b.x == a.x * b.x * d.z * z) by (nonlinear_arith);
    assert(((c.x * w - (d.x * z)) * a.z) * b.x == (c.x * w) * a.z * b.x - ((d.x * z)) * a.z
        * b.x) by (nonlinear_arith);
    assert((c.x * w) * a.z * b.x == a.z * b.x * c.x * w) by (nonlinear_arith);
    assert(((d.x * z)) * a.z * b.x == a.z * b.x * d.x * z) by (nonlinear_arith);
    assert((((c.z * d.x - c.x * d.z) * x)) * b.x == (c.z * d.x) * x * b.x - (c.x * d.z) * x
        * b.x) by (nonlinear_arith);
    assert((c.z * d.x) * x * b.x == b.x * c.z * d.x * x) by (nonlinear_arith);
    assert((c.x * d.z) * x * b.x == b.x * c.x * d.z * x) by (nonlinear_arith);
    assert((d.z * (a.x * y - (b.x * x)) - d.x * (a.z * y - (b.z * x)) + ((a.z * b.x - a.x * b.z)
        * w)) * c.x == (d.z * (a.x * y - (b.x * x))) * c.x - (d.x * (a.z * y - (b.z * x))) * c.x
        + (((a.z * b.x - a.x * b.z) * w)) * c.x) by (nonlinear_arith);
    assert((d.z * (a.x * y - (b.x * x))) * c.x == d.z * (a.x * y) * c.x - d.z * ((b.x * x))
        * c.x) by (nonlinear_arith);
    assert(d.z * (a.x * y) * c.x == a.x * c.x * d.z * y) by (nonlinear_arith);
    assert(d.z * ((b.x * x)) * c.x == b.x * c.x * d.z * x) by (nonlinear_arith);
    assert((d.x * (a.z * y - (b.z * x))) * c.x == d.x * (a.z * y) * c.x - d.x * ((b.z * x))
        * c.x) by (nonlinear_arith);
    assert(d.x * (a.z * y) * c.x == a.z * c.x * d.x * y) by (nonlinear_arith);
    assert(d.x * ((b.z * x)) * c.x == b.z * c.x * d.x * x) by (nonlinear_arith);
    assert((((a.z * b.x - a.x * b.z) * w)) * c.x == (a.z * b.x) * w * c.x - (a.x * b.z) * w
        * c.x) by (nonlinear_arith);
    assert((a.z * b.x) * w * c.x == a.z * b.x * c.x * w) by (nonlinear_arith);
    assert((a.x * b.z) * w * c.x == a.x * b.z * c.x * w) by (nonlinear_arith);
    assert(((a.z * y - (b.z * x)) * c.x - (a.x * y - (b.x * x)) * c.z - ((a.z * b.x - a.x * b.z)
        * z)) * d.x == ((a.z * y - (b.z * x)) * c.x) * d.x - ((a.x * y - (b.x * x)) * c.z) * d.x
        - (((a.z * b.x - a.x * b.z) * z)) * d.x) by (nonlinear_arith);
    assert(((a.z * y - (b.z * x)) * c.x) * d.x == (a.z * y) * c.x * d.x - ((b.z * x)) * c.x
        * d.x) by (nonlinear_arith);
    assert((a.z * y) * c.x * d.x == a.z * c.x * d.x * y) by (nonlinear_arith);
    assert(((b.z * x)) * c.x * d.x == b.z * c.x * d.x * x) by (nonlinear_arith);
    assert(((a.x * y - (b.x * x)) * c.z) * d.x == (a.x * y) * c.z * d.x - ((b.x * x)) * c.z
        * d.x) by (nonlinear_arith);
    assert((a.x * y) * c.z * d.x == a.x * c.z * d.x * y) by (nonlinear_arith);
    assert(((b.x * x)) * c.z * d.x == b.x * c.z * d.x * x) by (nonlinear_arith);
    assert((((a.z * b.x - a.x * b.z) * z)) * d.x == (a.z * b.x) * z * d.x - (a.x * b.z) * z
        * d.x) by (nonlinear_arith);
    assert((a.z * b.x) * z * d.x == a.z * b.x * d.x * z) by (nonlinear_arith);
    assert((a.x * b.z) * z * d.x == a.x * b.z * d.x * z) by (nonlinear_arith);
}

proof fn lemma_right_entry_02(a: Vec3, b: Vec3, c: Vec3, d: Vec3, x: int, y: int, z: int, w: int)
    ensures
        (b.x * (c.y * w - (d.y * z)) - b.y * (c.x * w - (d.x * z)) + ((c.x * d.y - c.y * d.x) * y))
            * a.x + ((c.x * w - (d.x * z)) * a.y - (c.y * w - (d.y * z)) * a.x - ((c.x * d.y - c.y
            * d.x) * x)) * b.x + (d.x * (a.y * y - (b.y * x)) - d.y * (a.x * y - (b.x * x)) + ((a.x
            * b.y - a.y * b.x) * w)) * c.x + ((a.x * y - (b.x * x)) * c.y - (a.y * y - (b.y * x))
            * c.x - ((a.x * b.y - a.y * b.x) * z)) * d.x == 0,
{
    assert((b.x * (c.y * w - (d.y * z)) - b.y * (c.x * w - (d.x * z)) + ((c.x * d.y - c.y * d.x)
        * y)) * a.x == (b.x * (c.y * w - (d.y * z))) * a.x - (b.y * (c.x * w - (d.x * z))) * a.x
        + (((c.x * d.y - c.y * d.x) * y)) * a.x) by (nonlinear_arith);
    assert((b.x * (c.y * w - (d.y * z))) * a.x == b.x * (c.y * w) * a.x - b.x * ((d.y * z))
        * a.x) by (nonlinear_arith);
    assert(b.x * (c.y * w) * a.x == a.x * b.x * c.y * w) by (nonlinear_arith);
    assert(b.x * ((d.y * z)) * a.x == a.x * b.x * d.y * z) by (nonlinear_arith);
    assert((b.y * (c.x * w - (d.x * z))) * a.x == b.y * (c.x * w) * a.x - b.y * ((d.x * z))
        * a.x) by (nonlinear_arith);
    assert(b.y * (c.x * w) * a.x == a.x * b.y * c.x * w) by (nonlinear_arith);
    assert(b.y * ((d.x * z)) * a.x == a.x * b.y * d.x * z) by (nonlinear_arith);
    assert((((c.x * d.y - c.y * d.x) * y)) * a.x == (c.x * d.y) * y * a.x - (c.y * d.x) * y
        * a.x) by (nonlinear_arith);
    assert((c.x * d.y) * y * a.x == a.x * c.x * d.y * y) by (nonlinear_arith);
    assert((c.y * d.x) * y * a.x == a.x * c.y * d.x * y) by (nonlinear_arith);
    assert(((c.x * w - (d.x * z)) * a.y - (c.y * w - (d.y * z)) * a.x - ((c.x * d.y - c.y * d.x)
        * x)) * b.x == ((c.x * w - (d.x * z)) * a.y) * b.x - ((c.y * w - (d.y * z)) * a.x) * b.x
        - (((c.x * d.y - c.y * d.x) * x)) * b.x) by (nonlinear_arith);
    assert(((c.x * w - (d.x * z)) * a.y) * b.x == (c.x * w) * a.y * b.x - ((d.x * z)) * a.y
        * b.x) by (nonlinear_arith);
    assert((c.x * w) * a.y * b.x == a.y * b.x * c.x * w) by (nonlinear_arith);
    assert(((d.x * z)) * a.y * b.x == a.y * b.x * d.x * z) by (nonlinear_arith);
    assert(((c.y * w - (d.y * z)) * a.x) * b.x == (c.y * w) * a.x * b.x - ((d.y * z)) * a.x
        * b.x) by (nonlinear_arith);
    assert((c.y * w) * a.x * b.x == a.x * b.x * c.y * w) by (nonlinear_arith);
    assert(((d.y * z)) * a.x * b.x == a.x * b.x * d.y * z) by (nonlinear_arith);
    assert((((c.x * d.y - c.y * d.x) * x)) * b.x == (c.x * d.y) * x * b.x - (c.y * d.x) * x
        * b.x) by (nonlinear_arith);
    assert((c.x * d.y) * x * b.x == b.x * c.x * d.y * x) by (nonlinear_arith);
    assert((c.y * d.x) * x * b.x == b.x * c.y * d.x * x) by (nonlinear_arith);
    assert((d.x * (a.y * y - (b.y * x)) - d.y * (a.x * y - (b.x * x)) + ((a.x * b.y - a.y * b.x)
        * w)) * c.x == (d.x * (a.y * y - (b.y * x))) * c.x - (d.y * (a.x * y - (b.x * x))) * c.x
        + (((a.x * b.y - a.y * b.x) * w)) * c.x) by (nonlinear_arith);
    assert((d.x * (a.y * y - (b.y * x))) * c.x == d.x * (a.y * y) * c.x - d.x * ((b.y * x))
        * c.x) by (nonlinear_arith);
    assert(d.x * (a.y * y) * c.x == a.y * c.x * d.x * y) by (nonlinear_arith);
    assert(d.x * ((b.y * x)) * c.x == b.y * c.x * d.x * x) by (nonlinear_arith);
    assert((d.y * (a.x * y - (b.x * x))) * c.x == d.y * (a.x * y) * c.x - d.y * ((b.x * x))
        * c.x) by (nonlinear_arith);
    assert(d.y * (a.x * y) * c.x == a.x * c.x * d.y * y) by (nonlinear_arith);
    assert(d.y * ((b.x * x)) * c.x == b.x * c.x * d.y * x) by (nonlinear_arith);
    assert((((a.x * b.y - a.y * b.x) * w)) * c.x == (a.x * b.y) * w * c.x - (a.y * b.x) * w
        * c.x) by (nonlinear_arith);
    assert((a.x * b.y) * w * c.x == a.x * b.y * c.x * w) by (nonlinear_arith);
    assert((a.y * b.x) * w * c.x == a.y * b.x * c.x * w) by (nonlinear_arith);
    assert(((a.x * y - (b.x * x)) * c.y - (a.y * y - (b.y * x)) * c.x - ((a.x * b.y - a.y * b.x)
        * z)) * d.x == ((a.x * y - (b.x * x)) * c.y) * d.x - ((a.y * y - (b.y * x)) * c.x) * d.x
        - (((a.x * b.y - a.y * b.x) * z)) * d.x) by (nonlinear_arith);
    assert(((a.x * y - (b.x * x)) * c.y) * d.x == (a.x * y) * c.y * d.x - ((b.x * x)) * c.y
        * d.x) by (nonlinear_arith);
    assert((a.x * y) * c.y * d.x == a.x * c.y * d.x * y) by (nonlinear_arith);
    assert(((b.x * x)) * c.y * d.x == b.x * c.y * d.x * x) by (nonlinear_arith);
    assert(((a.y * y - (b.y * x)) * c.x) * d.x == (a.y * y) * c.x * d.x - ((b.y * x)) * c.x
        * d.x) by (nonlinear_arith);
    assert((a.y * y) * c.x * d.x == a.y * c.x * d.x * y) by (nonlinear_arith);
    assert(((b.y * x)) * c.x * d.x == b.y * c.x * d.x * x) by (nonlinear_arith);
    assert((((a.x * b.y - a.y * b.x) * z)) * d.x == (a.x * b.y) * z * d.x - (a.y * b.x) * z
        * d.x) by (nonlinear_arith);
    assert((a.x * b.y) * z * d.x == a.x * b.y * d.x * z) by (nonlinear_arith);
    assert((a.y * b.x) * z * d.x == a.y * b.x * d.x * z) by (nonlinear_arith);
}

proof fn lemma_right_entry_03(a: Vec3, b: Vec3, c: Vec3, d: Vec3, x: int, y: int, z: int, w: int)
    ensures
        (-(b.x * (c.y * d.z - c.z * d.y) + b.y * (c.z * d.x - c.x * d.z) + b.z * (c.x * d.y - c.y
            * d.x))) * a.x + (a.x * (c.y * d.z - c.z * d.y) + a.y * (c.z * d.x - c.x * d.z) + a.z
            * (c.x * d.y - c.y * d.x)) * b.x + (-(d.x * (a.y * b.z - a.z * b.y) + d.y * (a.z * b.x
            - a.x * b.z) + d.z * (a.x * b.y - a.y * b.x))) * c.x + (c.x * (a.y * b.z - a.z * b.y)
            + c.y * (a.z * b.x - a.x * b.z) + c.z * (a.x * b.y - a.y * b.x)) * d.x == 0,
{
    assert((-(b.x * (c.y * d.z - c.z * d.y) + b.y * (c.z * d.x - c.x * d.z) + b.z * (c.x * d.y
        - c.y * d.x))) * a.x == -(((b.x * (c.y * d.z - c.z * d.y) + b.y * (c.z * d.x - c.x * d.z)
        + b.z * (c.x * d.y - c.y * d.x))) * a.x)) by (nonlinear_arith);
    assert(((b.x * (c.y * d.z - c.z * d.y) + b.y * (c.z * d.x - c.x * d.z) + b.z * (c.x * d.y - c.y
        * d.x))) * a.x == (b.x * (c.y * d.z - c.z * d.y)) * a.x + (b.y * (c.z * d.x - c.x * d.z))
        * a.x + (b.z * (c.x * d.y - c.y * d.x)) * a.x) by (nonlinear_arith);
    assert((b.x * (c.y * d.z - c.z * d.y)) * a.x == b.x * (c.y * d.z) * a.x - b.x * (c.z * d.y)
        * a.x) by (nonlinear_arith);
    assert(b.x * (c.y * d.z) * a.x == a.x * b.x * c.y * d.z) by (nonlinear_arith);
    assert(b.x * (c.z * d.y) * a.x == a.x * b.x * c.z * d.y) by (nonlinear_arith);
    assert((b.y * (c.z * d.x - c.x * d.z)) * a.x == b.y * (c.z * d.x) * a.x - b.y * (c.x * d.z)
        * a.x) by (nonlinear_arith);
    assert(b.y * (c.z * d.x) * a.x == a.x * b.y * c.z * d.x) by (nonlinear_arith);
    assert(b.y * (c.x * d.z) * a.x == a.x * b.y * c.x * d.z) by (nonlinear_arith);
    assert((b.z * (c.x * d.y - c.y * d.x)) * a.x == b.z * (c.x * d.y) * a.x - b.z * (c.y * d.x)
        * a.x) by (nonlinear_arith);
    assert(b.z * (c.x * d.y) * a.x == a.x * b.z * c.x * d.y) by (nonlinear_arith);
    assert(b.z * (c.y * d.x) * a.x == a.x * b.z * c.y * d.x) by (nonlinear_arith);
    assert((a.x * (c.y * d.z - c.z * d.y) + a.y * (c.z * d.x - c.x * d.z) + a.z * (c.x * d.y - c.y
        * d.x)) * b.x == (a.x * (c.y * d.z - c.z * d.y)) * b.x + (a.y * (c.z * d.x - c.x * d.z))
        * b.x + (a.z * (c.x * d.y - c.y * d.x)) * b.x) by (nonlinear_arith);
    assert((a.x * (c.y * d.z - c.z * d.y)) * b.x == a.x * (c.y * d.z) * b.x - a.x * (c.z * d.y)
        * b.x) by (nonlinear_arith);
    assert(a.x * (c.y * d.z) * b.x == a.x * b.x * c.y * d.z) by (nonlinear_arith);
    assert(a.x * (c.z * d.y) * b.x == a.x * b.x * c.z * d.y) by (nonlinear_arith);
    assert((a.y * (c.z * d.x - c.x * d.z)) * b.x == a.y * (c.z * d.x) * b.x - a.y * (c.x * d.z)
        * b.x) by (nonlinear_arith);
    assert(a.y * (c.z * d.x) * b.x == a.y * b.x * c.z * d.x) by (nonlinear_arith);
    assert(a.y * (c.x * d.z) * b.x == a.y * b.x * c.x * d.z) by (nonlinear_arith);
    assert((a.z * (c.x * d.y - c.y * d.x)) * b.x == a.z * (c.x * d.y) * b.x - a.z * (c.y * d.x)
        * b.x) by (nonlinear_arith);
    assert(a.z * (c.x * d.y) * b.x == a.z * b.x * c.x * d.y) by (nonlinear_arith);
    assert(a.z * (c.y * d.x) * b.x == a.z * b.x * c.y * d.x) by (nonlinear_arith);
    assert((-(d.x * (a.y * b.z - a.z * b.y) + d.y * (a.z * b.x - a.x * b.z) + d.z * (a.x * b.y
        - a.y * b.x))) * c.x == -(((d.x * (a.y * b.z - a.z * b.y) + d.y * (a.z * b.x - a.x * b.z)
        + d.z * (a.x * b.y - a.y * b.x))) * c.x)) by (nonlinear_arith);
    assert(((d.x * (a.y * b.z - a.z * b.y) + d.y * (a.z * b.x - a.x * b.z) + d.z * (a.x * b.y - a.y
        * b.x))) * c.x == (d.x * (a.y * b.z - a.z * b.y)) * c.x + (d.y * (a.z * b.x - a.x * b.z))
        * c.x + (d.z * (a.x * b.y - a.y * b.x)) * c.x) by (nonlinear_arith);
    assert((d.x * (a.y * b.z - a.z * b.y)) * c.x == d.x * (a.y * b.z) * c.x - d.x * (a.z * b.y)
        * c.x) by (nonlinear_arith);
    assert(d.x * (a.y * b.z) * c.x == a.y * b.z * c.x * d.x) by (nonlinear_arith);
    assert(d.x * (a.z * b.y) * c.x == a.z * b.y * c.x * d.x) by (nonlinear_arith);
    assert((d.y * (a.z * b.x - a.x * b.z)) * c.x == d.y * (a.z * b.x) * c.x - d.y * (a.x * b.z)
        * c.x) by (nonlinear_arith);
    assert(d.y * (a.z * b.x) * c.x == a.z * b.x * c.x * d.y) by (nonlinear_arith);
    assert(d.y * (a.x * b.z) * c.x == a.x * b.z * c.x * d.y) by (nonlinear_arith);
    assert((d.z * (a.x * b.y - a.y * b.x)) * c.x == d.z * (a.x * b.y) * c.x - d.z * (a.y * b.x)
        * c.x) by (nonlinear_arith);
    assert(d.z * (a.x * b.y) * c.x == a.x * b.y * c.x * d.z) by (nonlinear_arith);
    assert(d.z * (a.y * b.x) * c.x == a.y * b.x * c.x * d.z) by (nonlinear_arith);
    assert((c.x * (a.y * b.z - a.z * b.y) + c.y * (a.z * b.x - a.x * b.z) + c.z * (a.x * b.y - a.y
        * b.x)) * d.x == (c.x * (a.y * b.z - a.z * b.y)) * d.x + (c.y * (a.z * b.x - a.x * b.z))
        * d.x + (c.z * (a.x * b.y - a.y * b.x)) * d.x) by (nonlinear_arith);
    assert((c.x * (a.y * b.z - a.z * b.y)) * d.x == c.x * (a.y * b.z) * d.x - c.x * (a.z * b.y)
        * d.x) by (nonlinear_arith);
    assert(c.x * (a.y * b.z) * d.x == a.y * b.z * c.x * d.x) by (nonlinear_arith);
    assert(c.x * (a.z * b.y) * d.x == a.z * b.y * c.x * d.x) by (nonlinear_arith);
    assert((c.y * (a.z * b.x - a.x * b.z)) * d.x == c.y * (a.z * b.x) * d.x - c.y * (a.x * b.z)
        * d.x) by (nonlinear_arith);
    assert(c.y * (a.z * b.x) * d.x == a.z * b.x * c.y * d.x) by (nonlinear_arith);
    assert(c.y * (a.x * b.z) * d.x == a.x * b.z * c.y * d.x) by (nonlinear_arith);
    assert((c.z * (a.x * b.y - a.y * b.x)) * d.x == c.z * (a.x * b.y) * d.x - c.z * (a.y * b.x)
        * d.x) by (nonlinear_arith);
    assert(c.z * (a.x * b.y) * d.x == a.x * b.y * c.z * d.x) by (nonlinear_arith);
    assert(c.z * (a.y * b.x) * d.x == a.y * b.x * c.z * d.x) by (nonlinear_arith);
}

proof fn lemma_right_entry_10(a: Vec3, b: Vec3, c: Vec3, d: Vec3, x: int, y: int, z: int, w: int)
    ensures
        (b.y * (c.z * w - (d.z * z)) - b.z * (c.y * w - (d.y * z)) + ((c.y * d.z - c.z * d.y) * y))
            * a.y + ((c.y * w - (d.y * z)) * a.z - (c.z * w - (d.z * z)) * a.y - ((c.y * d.z - c.z
            * d.y) * x)) * b.y + (d.y * (a.z * y - (b.z * x)) - d.z * (a.y * y - (b.y * x)) + ((a.y
            * b.z - a.z * b.y) * w)) * c.y + ((a.y * y - (b.y * x)) * c.z - (a.z * y - (b.z * x))
            * c.y - ((a.y * b.z - a.z * b.y) * z)) * d.y == 0,
{
    assert((b.y * (c.z * w - (d.z * z)) - b.z * (c.y * w - (d.y * z)) + ((c.y * d.z - c.z * d.y)
        * y)) * a.y == (b.y * (c.z * w - (d.z * z))) * a.y - (b.z * (c.y * w - (d.y * z))) * a.y
        + (((c.y * d.z - c.z * d.y) * y)) * a.y) by (nonlinear_arith);
    assert((b.y * (c.z * w - (d.z * z))) * a.y == b.y * (c.z * w) * a.y - b.y * ((d.z * z))
        * a.y) by (nonlinear_arith);
    assert(b.y * (c.z * w) * a.y == a.y * b.y * c.z * w) by (nonlinear_arith);
    assert(b.y * ((d.z * z)) * a.y == a.y * b.y * d.z * z) by (nonlinear_arith);
    assert((b.z * (c.y * w - (d.y * z))) * a.y == b.z * (c.y * w) * a.y - b.z * ((d.y * z))
        * a.y) by (nonlinear_arith);
    assert(b.z * (c.y * w) * a.y == a.y * b.z * c.y * w) by (nonlinear_arith);
    assert(b.z * ((d.y * z)) * a.y == a.y * b.z * d.y * z) by (nonlinear_arith);
    assert((((c.y * d.z - c.z * d.y) * y)) * a.y == (c.y * d.z) * y * a.y - (c.z * d.y) * y
        * a.y) by (nonlinear_arith);
    assert((c.y * d.z) * y * a.y == a.y * c.y * d.z * y) by (nonlinear_arith);
    assert((c.z * d.y) * y * a.y == a.y * c.z * d.y * y) by (nonlinear_arith);
    assert(((c.y * w - (d.y * z)) * a.z - (c.z * w - (d.z * z)) * a.y - ((c.y * d.z - c.z * d.y)
        * x)) * b.y == ((c.y * w - (d.y * z)) * a.z) * b.y - ((c.z * w - (d.z * z)) * a.y) * b.y
        - (((c.y * d.z - c.z * d.y) * x)) * b.y) by (nonlinear_arith);
    assert(((c.y * w - (d.y * z)) * a.z) * b.y == (c.y * w) * a.z * b.y - ((d.y * z)) * a.z
        * b.y) by (nonlinear_arith);
    assert((c.y * w) * a.z * b.y == a.z * b.y * c.y * w) by (nonlinear_arith);
    assert(((d.y * z)) * a.z * b.y == a.z * b.y * d.y * z) by (nonlinear_arith);
    assert(((c.z * w - (d.z * z)) * a.y) * b.y == (c.z * w) * a.y * b.y - ((d.z * z)) * a.y
        * b.y) by (nonlinear_arith);
    assert((c.z * w) * a.y * b.y == a.y * b.y * c.z * w) by (nonlinear_arith);
    assert(((d.z * z)) * a.y * b.y == a.y * b.y * d.z * z) by (nonlinear_arith);
    assert((((c.y * d.z - c.z * d.y) * x)) * b.y == (c.y * d.z) * x * b.y - (c.z * d.y) * x
        * b.y) by (nonlinear_arith);
    assert((c.y * d.z) * x * b.y == b.y * c.y * d.z * x) by (nonlinear_arith);
    assert((c.z * d.y) * x * b.y == b.y * c.z * d.y * x) by (nonlinear_arith);
    assert((d.y * (a.z * y - (b.z * x)) - d.z * (a.y * y - (b.y * x)) + ((a.y * b.z - a.z * b.y)
        * w)) * c.y == (d.y * (a.z * y - (b.z * x))) * c.y - (d.z * (a.y * y - (b.y * x))) * c.y
        + (((a.y * b.z - a.z * b.y) * w)) * c.y) by (nonlinear_arith);
    assert((d.y * (a.z * y - (b.z * x))) * c.y == d.y * (a.z * y) * c.y - d.y * ((b.z * x))
        * c.y) by (nonlinear_arith);
    assert(d.y * (a.z * y) * c.y == a.z * c.y * d.y * y) by (nonlinear_arith);
    assert(d.y * ((b.z * x)) * c.y == b.z * c.y * d.y * x) by (nonlinear_arith);
    assert((d.z * (a.y * y - (b.y * x))) * c.y == d.z * (a.y * y) * c.y - d.z * ((b.y * x))
        * c.y) by (nonlinear_arith);
    assert(d.z * (a.y * y) * c.y == a.y * c.y * d.z * y) by (nonlinear_arith);
    assert(d.z * ((b.y * x)) * c.y == b.y * c.y * d.z * x) by (nonlinear_arith);
    assert((((a.y * b.z - a.z * b.y) * w)) * c.y == (a.y * b.z) * w * c.y - (a.z * b.y) * w
        * c.y) by (nonlinear_arith);
    assert((a.y * b.z) * w * c.y == a.y * b.z * c.y * w) by (nonlinear_arith);
    assert((a.z * b.y) * w * c.y == a.z * b.y * c.y * w) by (nonlinear_arith);
    assert(((a.y * y - (b.y * x)) * c.z - (a.z * y - (b.z * x)) * c.y - ((a.y * b.z - a.z * b.y)
        * z)) * d.y == ((a.y * y - (b.y * x)) * c.z) * d.y - ((a.z * y - (b.z * x)) * c.y) * d.y
        - (((a.y * b.z - a.z * b.y) * z)) * d.y) by (nonlinear_arith);
    assert(((a.y * y - (b.y * x)) * c.z) * d.y == (a.y * y) * c.z * d.y - ((b.y * x)) * c.z
        * d.y) by (nonlinear_arith);
    assert((a.y * y) * c.z * d.y == a.y * c.z * d.y * y) by (nonlinear_arith);
    assert(((b.y * x)) * c.z * d.y == b.y * c.z * d.y * x) by (nonlinear_arith);
    assert(((a.z * y - (b.z * x)) * c.y) * d.y == (a.z * y) * c.y * d.y - ((b.z * x)) * c.y
        * d.y) by (nonlinear_arith);
    assert((a.z * y) * c.y * d.y == a.z * c.y * d.y * y) by (nonlinear_arith);
    assert(((b.z * x)) * c.y * d.y == b.z * c.y * d.y * x) by (nonlinear_arith);
    assert((((a.y * b.z - a.z * b.y) * z)) * d.y == (a.y * b.z) * z * d.y - (a.z * b.y) * z
        * d.y) by (nonlinear_arith);
    assert((a.y * b.z) * z * d.y == a.y * b.z * d.y * z) by (nonlinear_arith);
    assert((a.z * b.y) * z * d.y == a.z * b.y * d.y * z) by (nonlinear_arith);
}

proof fn lemma_right_entry_11(a: Vec3, b: Vec3, c: Vec3, d: Vec3, x: int, y: int, z: int, w: int)
    ensures
        (b.z * (c.x * w - (d.x * z)) - b.x * (c.z * w - (d.z * z)) + ((c.z * d.x - c.x * d.z) * y))
            * a.y + ((c.z * w - (d.z * z)) * a.x - (c.x * w - (d.x * z)) * a.z - ((c.z * d.x - c.x
            * d.z) * x)) * b.y + (d.z * (a.x * y - (b.x * x)) - d.x * (a.z * y - (b.z * x)) + ((a.z
            * b.x - a.x * b.z) * w)) * c.y + ((a.z * y - (b.z * x)) * c.x - (a.x * y - (b.x * x))
            * c.z - ((a.z * b.x - a.x * b.z) * z)) * d.y == a.x * b.y * c.z * w + a.x * c.y * d.z
            * y + a.x * d.y * b.z * z - a.x * d.y * c.z * y - a.x * c.y * b.z * w - a.x * b.y * d.z
            * z - b.x * a.y * c.z * w - c.x * a.y * d.z * y - d.x * a.y * b.z * z + d.x * a.y * c.z
            * y + c.x * a.y * b.z * w + b.x * a.y * d.z * z + b.x * c.y * a.z * w + c.x * d.y * a.z
            * y + d.x * b.y * a.z * z - d.x * c.y * a.z * y - c.x * b.y * a.z * w - b.x * d.y * a.z
            * z - b.x * c.y * d.z * x - c.x * d.y * b.z * x - d.x * b.y * c.z * x + d.x * c.y * b.z
            * x + c.x * b.y * d.z * x + b.x * d.y * c.z * x,
{
    assert((b.z * (c.x * w - (d.x * z)) - b.x * (c.z * w - (d.z * z)) + ((c.z * d.x - c.x * d.z)
        * y)) * a.y == (b.z * (c.x * w - (d.x * z))) * a.y - (b.x * (c.z * w - (d.z * z))) * a.y
        + (((c.z * d.x - c.x * d.z) * y)) * a.y) by (nonlinear_arith);
    assert((b.z * (c.x * w - (d.x * z))) * a.y == b.z * (c.x * w) * a.y - b.z * ((d.x * z))
        * a.y) by (nonlinear_arith);
    assert(b.z * (c.x * w) * a.y == a.y * b.z * c.x * w) by (nonlinear_arith);
    assert(b.z * ((d.x * z)) * a.y == a.y * b.z * d.x * z) by (nonlinear_arith);
    assert((b.x * (c.z * w - (d.z * z))) * a.y == b.x * (c.z * w) * a.y - b.x * ((d.z * z))
        * a.y) by (nonlinear_arith);
    assert(b.x * (c.z * w) * a.y == a.y * b.x * c.z * w) by (nonlinear_arith);
    assert(b.x * ((d.z * z)) * a.y == a.y * b.x * d.z * z) by (nonlinear_arith);
    assert((((c.z * d.x - c.x * d.z) * y)) * a.y == (c.z * d.x) * y * a.y - (c.x * d.z) * y
        * a.y) by (nonlinear_arith);
    assert((c.z * d.x) * y * a.y == a.y * c.z * d.x * y) by (nonlinear_arith);
    assert((c.x * d.z) * y * a.y == a.y * c.x * d.z * y) by (nonlinear_arith);
    assert(((c.z * w - (d.z * z)) * a.x - (c.x * w - (d.x * z)) * a.z - ((c.z * d.x - c.x * d.z)
        * x)) * b.y == ((c.z * w - (d.z * z)) * a.x) * b.y - ((c.x * w - (d.x * z)) * a.z) * b.y
        - (((c.z * d.x - c.x * d.z) * x)) * b.y) by (nonlinear_arith);
    assert(((c.z * w - (d.z * z)) * a.x) * b.y == (c.z * w) * a.x * b.y - ((d.z * z)) * a.x
        * b.y) by (nonlinear_arith);
    assert((c.z * w) * a.x * b.y == a.x * b.y * c.z * w) by (nonlinear_arith);
    assert(((d.z * z)) * a.x * b.y == a.x * b.y * d.z * z) by (nonlinear_arith);
    assert(((c.x * w - (d.x * z)) * a.z) * b.y == (c.x * w) * a.z * b.y - ((d.x * z)) * a.z
        * b.y) by (nonlinear_arith);
    assert((c.x * w) * a.z * b.y == a.z * b.y * c.x * w) by (nonlinear_arith);
    assert(((d.x * z)) * a.z * b.y == a.z * b.y * d.x * z) by (nonlinear_arith);
    assert((((c.z * d.x - c.x * d.z) * x)) * b.y == (c.z * d.x) * x * b.y - (c.x * d.z) * x
        * b.y) by (nonlinear_arith);
    assert((c.z * d.x) * x * b.y == b.y * c.z * d.x * x) by (nonlinear_arith);
    assert((c.x * d.z) * x * b.y == b.y * c.x * d.z * x) by (nonlinear_arith);
    assert((d.z * (a.x * y - (b.x * x)) - d.x * (a.z * y - (b.z * x)) + ((a.z * b.x - a.x * b.z)
        * w)) * c.y == (d.z * (a.x * y - (b.x * x))) * c.y - (d.x * (a.z * y - (b.z * x))) * c.y
        + (((a.z * b.x - a.x * b.z) * w)) * c.y) by (nonlinear_arith);
    assert((d.z * (a.x * y - (b.x * x))) * c.y == d.z * (a.x * y) * c.y - d.z * ((b.x * x))
        * c.y) by (nonlinear_arith);
    assert(d.z * (a.x * y) * c.y == a.x * c.y * d.z * y) by (nonlinear_arith);
    assert(d.z * ((b.x * x)) * c.y == b.x * c.y * d.z * x) by (nonlinear_arith);
    assert((d.x * (a.z * y - (b.z * x))) * c.y == d.x * (a.z * y) * c.y - d.x * ((b.z * x))
        * c.y) by (nonlinear_arith);
    assert(d.x * (a.z * y) * c.y == a.z * c.y * d.x * y) by (nonlinear_arith);
    assert(d.x * ((b.z * x)) * c.y == b.z * c.y * d.x * x) by (nonlinear_arith);
    assert((((a.z * b.x - a.x * b.z) * w)) * c.y == (a.z * b.x) * w * c.y - (a.x * b.z) * w
        * c.y) by (nonlinear_arith);
    assert((a.z * b.x) * w * c.y == a.z * b.x * c.y * w) by (nonlinear_arith);
    assert((a.x * b.z) * w * c.y == a.x * b.z * c.y * w) by (nonlinear_arith);
    assert(((a.z * y - (b.z * x)) * c.x - (a.x * y - (b.x * x)) * c.z - ((a.z * b.x - a.x * b.z)
        * z)) * d.y == ((a.z * y - (b.z * x)) * c.x) * d.y - ((a.x * y - (b.x * x)) * c.z) * d.y
        - (((a.z * b.x - a.x * b.z) * z)) * d.y) by (nonlinear_arith);
    assert(((a.z * y - (b.z * x)) * c.x) * d.y == (a.z * y) * c.x * d.y - ((b.z * x)) * c.x
        * d.y) by (nonlinear_arith);
    assert((a.z * y) * c.x * d.y == a.z * c.x * d.y * y) by (nonlinear_arith);
    assert(((b.z * x)) * c.x * d.y == b.z * c.x * d.y * x) by (nonlinear_arith);
    assert(((a.x * y - (b.x * x)) * c.z) * d.y == (a.x * y) * c.z * d.y - ((b.x * x)) * c.z
        * d.y) by (nonlinear_arith);
    assert((a.x * y) * c.z * d.y == a.x * c.z * d.y * y) by (nonlinear_arith);
    assert(((b.x * x)) * c.z * d.y == b.x * c.z * d.y * x) by (nonlinear_arith);
    assert((((a.z * b.x - a.x * b.z) * z)) * d.y == (a.z * b.x) * z * d.y - (a.x * b.z) * z
        * d.y) by (nonlinear_arith);
    assert((a.z * b.x) * z * d.y == a.z * b.x * d.y * z) by (nonlinear_arith);
    assert((a.x * b.z) * z * d.y == a.x * b.z * d.y * z) by (nonlinear_arith);
    assert(a.x * d.y * b.z * z == a.x * b.z * d.y * z) by (nonlinear_arith);
    assert(a.x * d.y * c.z * y == a.x * c.z * d.y * y) by (nonlinear_arith);
    assert(a.x * c.y * b.z * w == a.x * b.z * c.y * w) by (nonlinear_arith);
    assert(b.x * a.y * c.z * w == a.y * b.x * c.z * w) by (nonlinear_arith);
    assert(c.x * a.y * d.z * y == a.y * c.x * d.z * y) by (nonlinear_arith);
    assert(d.x * a.y * b.z * z == a.y * b.z * d.x * z) by (nonlinear_arith);
    assert(d.x * a.y * c.z * y == a.y * c.z * d.x * y) by (nonlinear_arith);
    assert(c.x * a.y * b.z * w == a.y * b.z * c.x * w) by (nonlinear_arith);
    assert(b.x * a.y * d.z * z == a.y * b.x * d.z * z) by (nonlinear_arith);
    assert(b.x * c.y * a.z * w == a.z * b.x * c.y * w) by (nonlinear_arith);
    assert(c.x * d.y * a.z * y == a.z * c.x * d.y * y) by (nonlinear_arith);
    assert(d.x * b.y * a.z * z == a.z * b.y * d.x * z) by (nonlinear_arith);
    assert(d.x * c.y * a.z * y == a.z * c.y * d.x * y) by (nonlinear_arith);
    assert(c.x * b.y * a.z * w == a.z * b.y * c.x * w) by (nonlinear_arith);
    assert(b.x * d.y * a.z * z == a.z * b.x * d.y * z) by (nonlinear_arith);
    assert(c.x * d.y * b.z * x == b.z * c.x * d.y * x) by (nonlinear_arith);
    assert(d.x * b.y * c.z * x == b.y * c.z * d.x * x) by (nonlinear_arith);
    assert(d.x * c.y * b.z * x == b.z * c.y * d.x * x) by (nonlinear_arith);
    assert(c.x * b.y * d.z * x == b.y * c.x * d.z * x) by (nonlinear_arith);
    assert(b.x * d.y * c.z * x == b.x * c.z * d.y * x) by (nonlinear_arith);
}

proof fn lemma_right_entry_12(a: Vec3, b: Vec3, c: Vec3, d: Vec3, x: int, y: int, z: int, w: int)
    ensures
        (b.x * (c.y * w - (d.y * z)) - b.y * (c.x * w - (d.x * z)) + ((c.x * d.y - c.y * d.x) * y))
            * a.y + ((c.x * w - (d.x * z)) * a.y - (c.y * w - (d.y * z)) * a.x - ((c.x * d.y - c.y
            * d.x) * x)) * b.y + (d.x * (a.y * y - (b.y * x)) - d.y * (a.x * y - (b.x * x)) + ((a.x
            * b.y - a.y * b.x) * w)) * c.y + ((a.x * y - (b.x * x)) * c.y - (a.y * y - (b.y * x))
            * c.x - ((a.x * b.y - a.y * b.x) * z)) * d.y == 0,
{
    assert((b.x * (c.y * w - (d.y * z)) - b.y * (c.x * w - (d.x * z)) + ((c.x * d.y - c.y * d.x)
        * y)) * a.y == (b.x * (c.y * w - (d.y * z))) * a.y - (b.y * (c.x * w - (d.x * z))) * a.y
        + (((c.x * d.y - c.y * d.x) * y)) * a.y) by (nonlinear_arith);
    assert((b.x * (c.y * w - (d.y * z))) * a.y == b.x * (c.y * w) * a.y - b.x * ((d.y * z))
        * a.y) by (nonlinear_arith);
    assert(b.x * (c.y * w) * a.y == a.y * b.x * c.y * w) by (nonlinear_arith);
    assert(b.x * ((d.y * z)) * a.y == a.y * b.x * d.y * z) by (nonlinear_arith);
    assert((b.y * (c.x * w - (d.x * z))) * a.y == b.y * (c.x * w) * a.y - b.y * ((d.x * z))
        * a.y) by (nonlinear_arith);
    assert(b.y * (c.x * w) * a.y == a.y * b.y * c.x * w) by (nonlinear_arith);
    assert(b.y * ((d.x * z)) * a.y == a.y * b.y * d.x * z) by (nonlinear_arith);
    assert((((c.x * d.y - c.y * d.x) * y)) * a.y == (c.x * d.y) * y * a.y - (c.y * d.x) * y
        * a.y) by (nonlinear_arith);
    assert((c.x * d.y) * y * a.y == a.y * c.x * d.y * y) by (nonlinear_arith);
    assert((c.y * d.x) * y * a.y == a.y * c.y * d.x * y) by (nonlinear_arith);
    assert(((c.x * w - (d.x * z)) * a.y - (c.y * w - (d.y * z)) * a.x - ((c.x * d.y - c.y * d.x)
        * x)) * b.y == ((c.x * w - (d.x * z)) * a.y) * b.y - ((c.y * w - (d.y * z)) * a.x) * b.y
        - (((c.x * d.y - c.y * d.x) * x)) * b.y) by (nonlinear_arith);
    assert(((c.x * w - (d.x * z)) * a.y) * b.y == (c.x * w) * a.y * b.y - ((d.x * z)) * a.y
        * b.y) by (nonlinear_arith);
    assert((c.x * w) * a.y * b.y == a.y * b.y * c.x * w) by (nonlinear_arith);
    assert(((d.x * z)) * a.y * b.y == a.y * b.y * d.x * z) by (nonlinear_arith);
    assert(((c.y * w - (d.y * z)) * a.x) * b.y == (c.y * w) * a.x * b.y - ((d.y * z)) * a.x
        * b.y) by (nonlinear_arith);
    assert((c.y * w) * a.x * b.y == a.x * b.y * c.y * w) by (nonlinear_arith);
    assert(((d.y * z)) * a.x * b.y == a.x * b.y * d.y * z) by (nonlinear_arith);
    assert((((c.x * d.y - c.y * d.x) * x)) * b.y == (c.x * d.y) * x * b.y - (c.y * d.x) * x
        * b.y) by (nonlinear_arith);
    assert((c.x * d.y) * x * b.y == b.y * c.x * d.y * x) by (nonlinear_arith);
    assert((c.y * d.x) * x * b.y == b.y * c.y * d.x * x) by (nonlinear_arith);
    assert((d.x * (a.y * y - (b.y * x)) - d.y * (a.x * y - (b.x * x)) + ((a.x * b.y - a.y * b.x)
        * w)) * c.y == (d.x * (a.y * y - (b.y * x))) * c.y - (d.y * (a.x * y - (b.x * x))) * c.y
        + (((a.x * b.y - a.y * b.x) * w)) * c.y) by (nonlinear_arith);
    assert((d.x * (a.y * y - (b.y * x))) * c.y == d.x * (a.y * y) * c.y - d.x * ((b.y * x))
        * c.y) by (nonlinear_arith);
    assert(d.x * (a.y * y) * c.y == a.y * c.y * d.x * y) by (nonlinear_arith);
    assert(d.x * ((b.y * x)) * c.y == b.y * c.y * d.x * x) by (nonlinear_arith);
    assert((d.y * (a.x * y - (b.x * x))) * c.y == d.y * (a.x * y) * c.y - d.y * ((b.x * x))
        * c.y) by (nonlinear_arith);
    assert(d.y * (a.x * y) * c.y == a.x * c.y * d.y * y) by (nonlinear_arith);
    assert(d.y * ((b.x * x)) * c.y == b.x * c.y * d.y * x) by (nonlinear_arith);
    assert((((a.x * b.y - a.y * b.x) * w)) * c.y == (a.x * b.y) * w * c.y - (a.y * b.x) * w
        * c.y) by (nonlinear_arith);
    assert((a.x * b.y) * w * c.y == a.x * b.y * c.y * w) by (nonlinear_arith);
    assert((a.y * b.x) * w * c.y == a.y * b.x * c.y * w) by (nonlinear_arith);
    assert(((a.x * y - (b.x * x)) * c.y - (a.y * y - (b.y * x)) * c.x - ((a.x * b.y - a.y * b.x)
        * z)) * d.y == ((a.x * y - (b.x * x)) * c.y) * d.y - ((a.y * y - (b.y * x)) * c.x) * d.y
        - (((a.x * b.y - a.y * b.x) * z)) * d.y) by (nonlinear_arith);
    assert(((a.x * y - (b.x * x)) * c.y) * d.y == (a.x * y) * c.y * d.y - ((b.x * x)) * c.y
        * d.y) by (nonlinear_arith);
    assert((a.x * y) * c.y * d.y == a.x * c.y * d.y * y) by (nonlinear_arith);
    assert(((b.x * x)) * c.y * d.y == b.x * c.y * d.y * x) by (nonlinear_arith);
    assert(((a.y * y - (b.y * x)) * c.x) * d.y == (a.y * y) * c.x * d.y - ((b.y * x)) * c.x
        * d.y) by (nonlinear_arith);
    assert((a.y * y) * c.x * d.y == a.y * c.x * d.y * y) by (nonlinear_arith);
    assert(((b.y * x)) * c.x * d.y == b.y * c.x * d.y * x) by (nonlinear_arith);
    assert((((a.x * b.y - a.y * b.x) * z)) * d.y == (a.x * b.y) * z * d.y - (a.y * b.x) * z
        * d.y) by (nonlinear_arith);
    assert((a.x * b.y) * z * d.y == a.x * b.y * d.y * z) by (nonlinear_arith);
    assert((a.y * b.x) * z * d.y == a.y * b.x * d.y * z) by (nonlinear_arith);
}

proof fn lemma_right_entry_13(a: Vec3, b: Vec3, c: Vec3, d: Vec3, x: int, y: int, z: int, w: int)
    ensures
        (-(b.x * (c.y * d.z - c.z * d.y) + b.y * (c.z * d.x - c.x * d.z) + b.z * (c.x * d.y - c.y
            * d.x))) * a.y + (a.x * (c.y * d.z - c.z * d.y) + a.y * (c.z * d.x - c.x * d.z) + a.z
            * (c.x * d.y - c.y * d.x)) * b.y + (-(d.x * (a.y * b.z - a.z * b.y) + d.y * (a.z * b.x
            - a.x * b.z) + d.z * (a.x * b.y - a.y * b.x))) * c.y + (c.x * (a.y * b.z - a.z * b.y)
            + c.y * (a.z * b.x - a.x * b.z) + c.z * (a.x * b.y - a.y * b.x)) * d.y == 0,
{
    assert((-(b.x * (c.y * d.z - c.z * d.y) + b.y * (c.z * d.x - c.x * d.z) + b.z * (c.x * d.y
        - c.y * d.x))) * a.y == -(((b.x * (c.y * d.z - c.z * d.y) + b.y * (c.z * d.x - c.x * d.z)
        + b.z * (c.x * d.y - c.y * d.x))) * a.y)) by (nonlinear_arith);
    assert(((b.x * (c.y * d.z - c.z * d.y) + b.y * (c.z * d.x - c.x * d.z) + b.z * (c.x * d.y - c.y
        * d.x))) * a.y == (b.x * (c.y * d.z - c.z * d.y)) * a.y + (b.y * (c.z * d.x - c.x * d.z))
        * a.y + (b.z * (c.x * d.y - c.y * d.x)) * a.y) by (nonlinear_arith);
    assert((b.x * (c.y * d.z - c.z * d.y)) * a.y == b.x * (c.y * d.z) * a.y - b.x * (c.z * d.y)
        * a.y) by (nonlinear_arith);
    assert(b.x * (c.y * d.z) * a.y == a.y * b.x * c.y * d.z) by (nonlinear_arith);
    assert(b.x * (c.z * d.y) * a.y == a.y * b.x * c.z * d.y) by (nonlinear_arith);
    assert((b.y * (c.z * d.x - c.x * d.z)) * a.y == b.y * (c.z * d.x) * a.y - b.y * (c.x * d.z)
        * a.y) by (nonlinear_arith);
    assert(b.y * (c.z * d.x) * a.y == a.y * b.y * c.z * d.x) by (nonlinear_arith);
    assert(b.y * (c.x * d.z) * a.y == a.y * b.y * c.x * d.z) by (nonlinear_arith);
    assert((b.z * (c.x * d.y - c.y * d.x)) * a.y == b.z * (c.x * d.y) * a.y - b.z * (c.y * d.x)
        * a.y) by (nonlinear_arith);
    assert(b.z * (c.x * d.y) * a.y == a.y * b.z * c.x * d.y) by (nonlinear_arith);
    assert(b.z * (c.y * d.x) * a.y == a.y * b.z * c.y * d.x) by (nonlinear_arith);
    assert((a.x * (c.y * d.z - c.z * d.y) + a.y * (c.z * d.x - c.x * d.z) + a.z * (c.x * d.y - c.y
        * d.x)) * b.y == (a.x * (c.y * d.z - c.z * d.y)) * b.y + (a.y * (c.z * d.x - c.x * d.z))
        * b.y + (a.z * (c.x * d.y - c.y * d.x)) * b.y) by (nonlinear_arith);
    assert((a.x * (c.y * d.z - c.z * d.y)) * b.y == a.x * (c.y * d.z) * b.y - a.x * (c.z * d.y)
        * b.y) by (nonlinear_arith);
    assert(a.x * (c.y * d.z) * b.y == a.x * b.y * c.y * d.z) by (nonlinear_arith);
    assert(a.x * (c.z * d.y) * b.y == a.x * b.y * c.z * d.y) by (nonlinear_arith);
    assert((a.y * (c.z * d.x - c.x * d.z)) * b.y == a.y * (c.z * d.x) * b.y - a.y * (c.x * d.z)
        * b.y) by (nonlinear_arith);
    assert(a.y * (c.z * d.x) * b.y == a.y * b.y * c.z * d.x) by (nonlinear_arith);
    assert(a.y * (c.x * d.z) * b.y == a.y * b.y * c.x * d.z) by (nonlinear_arith);
    assert((a.z * (c.x * d.y - c.y * d.x)) * b.y == a.z * (c.x * d.y) * b.y - a.z * (c.y * d.x)
        * b.y) by (nonlinear_arith);
    assert(a.z * (c.x * d.y) * b.y == a.z * b.y * c.x * d.y) by (nonlinear_arith);
    assert(a.z * (c.y * d.x) * b.y == a.z * b.y * c.y * d.x) by (nonlinear_arith);
    assert((-(d.x * (a.y * b.z - a.z * b.y) + d.y * (a.z * b.x - a.x * b.z) + d.z * (a.x * b.y
        - a.y * b.x))) * c.y == -(((d.x * (a.y * b.z - a.z * b.y) + d.y * (a.z * b.x - a.x * b.z)
        + d.z * (a.x * b.y - a.y * b.x))) * c.y)) by (nonlinear_arith);
    assert(((d.x * (a.y * b.z - a.z * b.y) + d.y * (a.z * b.x - a.x * b.z) + d.z * (a.x * b.y - a.y
        * b.x))) * c.y == (d.x * (a.y * b.z - a.z * b.y)) * c.y + (d.y * (a.z * b.x - a.x * b.z))
        * c.y + (d.z * (a.x * b.y - a.y * b.x)) * c.y) by (nonlinear_arith);
    assert((d.x * (a.y * b.z - a.z * b.y)) * c.y == d.x * (a.y * b.z) * c.y - d.x * (a.z * b.y)
        * c.y) by (nonlinear_arith);
    assert(d.x * (a.y * b.z) * c.y == a.y * b.z * c.y * d.x) by (nonlinear_arith);
    assert(d.x * (a.z * b.y) * c.y == a.z * b.y * c.y * d.x) by (nonlinear_arith);
    assert((d.y * (a.z * b.x - a.x * b.z)) * c.y == d.y * (a.z * b.x) * c.y - d.y * (a.x * b.z)
        * c.y) by (nonlinear_arith);
    assert(d.y * (a.z * b.x) * c.y == a.z * b.x * c.y * d.y) by (nonlinear_arith);
    assert(d.y * (a.x * b.z) * c.y == a.x * b.z * c.y * d.y) by (nonlinear_arith);
    assert((d.z * (a.x * b.y - a.y * b.x)) * c.y == d.z * (a.x * b.y) * c.y - d.z * (a.y * b.x)
        * c.y) by (nonlinear_arith);
    assert(d.z * (a.x * b.y) * c.y == a.x * b.y * c.y * d.z) by (nonlinear_arith);
    assert(d.z * (a.y * b.x) * c.y == a.y * b.x * c.y * d.z) by (nonlinear_arith);
    assert((c.x * (a.y * b.z - a.z * b.y) + c.y * (a.z * b.x - a.x * b.z) + c.z * (a.x * b.y - a.y
        * b.x)) * d.y == (c.x * (a.y * b.z - a.z * b.y)) * d.y + (c.y * (a.z * b.x - a.x * b.z))
        * d.y + (c.z * (a.x * b.y - a.y * b.x)) * d.y) by (nonlinear_arith);
    assert((c.x * (a.y * b.z - a.z * b.y)) * d.y == c.x * (a.y * b.z) * d.y - c.x * (a.z * b.y)
        * d.y) by (nonlinear_arith);
    assert(c.x * (a.y * b.z) * d.y == a.y * b.z * c.x * d.y) by (nonlinear_arith);
    assert(c.x * (a.z * b.y) * d.y == a.z * b.y * c.x * d.y) by (nonlinear_arith);
    assert((c.y * (a.z * b.x - a.x * b.z)) * d.y == c.y * (a.z * b.x) * d.y - c.y * (a.x * b.z)
        * d.y) by (nonlinear_arith);
    assert(c.y * (a.z * b.x) * d.y == a.z * b.x * c.y * d.y) by (nonlinear_arith);
    assert(c.y * (a.x * b.z) * d.y == a.x * b.z * c.y * d.y) by (nonlinear_arith);
    assert((c.z * (a.x * b.y - a.y * b.x)) * d.y == c.z * (a.x * b.y) * d.y - c.z * (a.y * b.x)
        * d.y) by (nonlinear_arith);
    assert(c.z * (a.x * b.y) * d.y == a.x * b.y * c.z * d.y) by (nonlinear_arith);
    assert(c.z * (a.y * b.x) * d.y == a.y * b.x * c.z * d.y) by (nonlinear_arith);
}

proof fn lemma_right_entry_20(a: Vec3, b: Vec3, c: Vec3, d: Vec3, x: int, y: int, z: int, w: int)
    ensures
        (b.y * (c.z * w - (d.z * z)) - b.z * (c.y * w - (d.y * z)) + ((c.y * d.z - c.z * d.y) * y))
            * a.z + ((c.y * w - (d.y * z)) * a.z - (c.z * w - (d.z * z)) * a.y - ((c.y * d.z - c.z
            * d.y) * x)) * b.z + (d.y * (a.z * y - (b.z * x)) - d.z * (a.y * y - (b.y * x)) + ((a.y
            * b.z - a.z * b.y) * w)) * c.z + ((a.y * y - (b.y * x)) * c.z - (a.z * y - (b.z * x))
            * c.y - ((a.y * b.z - a.z * b.y) * z)) * d.z == 0,
{
    assert((b.y * (c.z * w - (d.z * z)) - b.z * (c.y * w - (d.y * z)) + ((c.y * d.z - c.z * d.y)
        * y)) * a.z == (b.y * (c.z * w - (d.z * z))) * a.z - (b.z * (c.y * w - (d.y * z))) * a.z
        + (((c.y * d.z - c.z * d.y) * y)) * a.z) by (nonlinear_arith);
    assert((b.y * (c.z * w - (d.z * z))) * a.z == b.y * (c.z * w) * a.z - b.y * ((d.z * z))
        * a.z) by (nonlinear_arith);
    assert(b.y * (c.z * w) * a.z == a.z * b.y * c.z * w) by (nonlinear_arith);
    assert(b.y * ((d.z * z)) * a.z == a.z * b.y * d.z * z) by (nonlinear_arith);
    assert((b.z * (c.y * w - (d.y * z))) * a.z == b.z * (c.y * w) * a.z - b.z * ((d.y * z))
        * a.z) by (nonlinear_arith);
    assert(b.z * (c.y * w) * a.z == a.z * b.z * c.y * w) by (nonlinear_arith);
    assert(b.z * ((d.y * z)) * a.z == a.z * b.z * d.y * z) by (nonlinear_arith);
    assert((((c.y * d.z - c.z * d.y) * y)) * a.z == (c.y * d.z) * y * a.z - (c.z * d.y) * y
        * a.z) by (nonlinear_arith);
    assert((c.y * d.z) * y * a.z == a.z * c.y * d.z * y) by (nonlinear_arith);
    assert((c.z * d.y) * y * a.z == a.z * c.z * d.y * y) by (nonlinear_arith);
    assert(((c.y * w - (d.y * z)) * a.z - (c.z * w - (d.z * z)) * a.y - ((c.y * d.z - c.z * d.y)
        * x)) * b.z == ((c.y * w - (d.y * z)) * a.z) * b.z - ((c.z * w - (d.z * z)) * a.y) * b.z
        - (((c.y * d.z - c.z * d.y) * x)) * b.z) by (nonlinear_arith);
    assert(((c.y * w - (d.y * z)) * a.z) * b.z == (c.y * w) * a.z * b.z - ((d.y * z)) * a.z
        * b.z) by (nonlinear_arith);
    assert((c.y * w) * a.z * b.z == a.z * b.z * c.y * w) by (nonlinear_arith);
    assert(((d.y * z)) * a.z * b.z == a.z * b.z * d.y * z) by (nonlinear_arith);
    assert(((c.z * w - (d.z * z)) * a.y) * b.z == (c.z * w) * a.y * b.z - ((d.z * z)) * a.y
        * b.z) by (nonlinear_arith);
    assert((c.z * w) * a.y * b.z == a.y * b.z * c.z * w) by (nonlinear_arith);
    assert(((d.z * z)) * a.y * b.z == a.y * b.z * d.z * z) by (nonlinear_arith);
    assert((((c.y * d.z - c.z * d.y) * x)) * b.z == (c.y * d.z) * x * b.z - (c.z * d.y) * x
        * b.z) by (nonlinear_arith);
    assert((c.y * d.z) * x * b.z == b.z * c.y * d.z * x) by (nonlinear_arith);
    assert((c.z * d.y) * x * b.z == b.z * c.z * d.y * x) by (nonlinear_arith);
    assert((d.y * (a.z * y - (b.z * x)) - d.z * (a.y * y - (b.y * x)) + ((a.y * b.z - a.z * b.y)
        * w)) * c.z == (d.y * (a.z * y - (b.z * x))) * c.z - (d.z * (a.y * y - (b.y * x))) * c.z
        + (((a.y * b.z - a.z * b.y) * w)) * c.z) by (nonlinear_arith);
    assert((d.y * (a.z * y - (b.z * x))) * c.z == d.y * (a.z * y) * c.z - d.y * ((b.z * x))
        * c.z) by (nonlinear_arith);
    assert(d.y * (a.z * y) * c.z == a.z * c.z * d.y * y) by (nonlinear_arith);
    assert(d.y * ((b.z * x)) * c.z == b.z * c.z * d.y * x) by (nonlinear_arith);
    assert((d.z * (a.y * y - (b.y * x))) * c.z == d.z * (a.y * y) * c.z - d.z * ((b.y * x))
        * c.z) by (nonlinear_arith);
    assert(d.z * (a.y * y) * c.z == a.y * c.z * d.z * y) by (nonlinear_arith);
    assert(d.z * ((b.y * x)) * c.z == b.y * c.z * d.z * x) by (nonlinear_arith);
    assert((((a.y * b.z - a.z * b.y) * w)) * c.z == (a.y * b.z) * w * c.z - (a.z * b.y) * w
        * c.z) by (nonlinear_arith);
    assert((a.y * b.z) * w * c.z == a.y * b.z * c.z * w) by (nonlinear_arith);
    assert((a.z * b.y) * w * c.z == a.z * b.y * c.z * w) by (nonlinear_arith);
    assert(((a.y * y - (b.y * x)) * c.z - (a.z * y - (b.z * x)) * c.y - ((a.y * b.z - a.z * b.y)
        * z)) * d.z == ((a.y * y - (b.y * x)) * c.z) * d.z - ((a.z * y - (b.z * x)) * c.y) * d.z
        - (((a.y * b.z - a.z * b.y) * z)) * d.z) by (nonlinear_arith);
    assert(((a.y * y - (b.y * x)) * c.z) * d.z == (a.y * y) * c.z * d.z - ((b.y * x)) * c.z
        * d.z) by (nonlinear_arith);
    assert((a.y * y) * c.z * d.z == a.y * c.z * d.z * y) by (nonlinear_arith);
    assert(((b.y * x)) * c.z * d.z == b.y * c.z * d.z * x) by (nonlinear_arith);
    assert(((a.z * y - (b.z * x)) * c.y) * d.z == (a.z * y) * c.y * d.z - ((b.z * x)) * c.y
        * d.z) by (nonlinear_arith);
    assert((a.z * y) * c.y * d.z == a.z * c.y * d.z * y) by (nonlinear_arith);
    assert(((b.z * x)) * c.y * d.z == b.z * c.y * d.z * x) by (nonlinear_arith);
    assert((((a.y * b.z - a.z * b.y) * z)) * d.z == (a.y * b.z) * z * d.z - (a.z * b.y) * z
        * d.z) by (nonlinear_arith);
    assert((a.y * b.z) * z * d.z == a.y * b.z * d.z * z) by (nonlinear_arith);
    assert((a.z * b.y) * z * d.z == a.z * b.y * d.z * z) by (nonlinear_arith);
}

proof fn lemma_right_entry_21(a: Vec3, b: Vec3, c: Vec3, d: Vec3, x: int, y: int, z: int, w: int)
    ensures
        (b.z * (c.x * w - (d.x * z)) - b.x * (c.z * w - (d.z * z)) + ((c.z * d.x - c.x * d.z) * y))
            * a.z + ((c.z * w - (d.z * z)) * a.x - (c.x * w - (d.x * z)) * a.z - ((c.z * d.x - c.x
            * d.z) * x)) * b.z + (d.z * (a.x * y - (b.x * x)) - d.x * (a.z * y - (b.z * x)) + ((a.z
            * b.x - a.x * b.z) * w)) * c.z + ((a.z * y - (b.z * x)) * c.x - (a.x * y - (b.x * x))
            * c.z - ((a.z * b.x - a.x * b.z) * z)) * d.z == 0,
{
    assert((b.z * (c.x * w - (d.x * z)) - b.x * (c.z * w - (d.z * z)) + ((c.z * d.x - c.x * d.z)
        * y)) * a.z == (b.z * (c.x * w - (d.x * z))) * a.z - (b.x * (c.z * w - (d.z * z))) * a.z
        + (((c.z * d.x - c.x * d.z) * y)) * a.z) by (nonlinear_arith);
    assert((b.z * (c.x * w - (d.x * z))) * a.z == b.z * (c.x * w) * a.z - b.z * ((d.x * z))
        * a.z) by (nonlinear_arith);
    assert(b.z * (c.x * w) * a.z == a.z * b.z * c.x * w) by (nonlinear_arith);
    assert(b.z * ((d.x * z)) * a.z == a.z * b.z * d.x * z) by (nonlinear_arith);
    assert((b.x * (c.z * w - (d.z * z))) * a.z == b.x * (c.z * w) * a.z - b.x * ((d.z * z))
        * a.z) by (nonlinear_arith);
    assert(b.x * (c.z * w) * a.z == a.z * b.x * c.z * w) by (nonlinear_arith);
    assert(b.x * ((d.z * z)) * a.z == a.z * b.x * d.z * z) by (nonlinear_arith);
    assert((((c.z * d.x - c.x * d.z) * y)) * a.z == (c.z * d.x) * y * a.z - (c.x * d.z) * y
        * a.z) by (nonlinear_arith);
    assert((c.z * d.x) * y * a.z == a.z * c.z * d.x * y) by (nonlinear_arith);
    assert((c.x * d.z) * y * a.z == a.z * c.x * d.z * y) by (nonlinear_arith);
    assert(((c.z * w - (d.z * z)) * a.x - (c.x * w - (d.x * z)) * a.z - ((c.z * d.x - c.x * d.z)
        * x)) * b.z == ((c.z * w - (d.z * z)) * a.x) * b.z - ((c.x * w - (d.x * z)) * a.z) * b.z
        - (((c.z * d.x - c.x * d.z) * x)) * b.z) by (nonlinear_arith);
    assert(((c.z * w - (d.z * z)) * a.x) * b.z == (c.z * w) * a.x * b.z - ((d.z * z)) * a.x
        * b.z) by (nonlinear_arith);
    assert((c.z * w) * a.x * b.z == a.x * b.z * c.z * w) by (nonlinear_arith);
    assert(((d.z * z)) * a.x * b.z == a.x * b.z * d.z * z) by (nonlinear_arith);
    assert(((c.x * w - (d.x * z)) * a.z) * b.z == (c.x * w) * a.z * b.z - ((d.x * z)) * a.z
        * b.z) by (nonlinear_arith);
    assert((c.x * w) * a.z * b.z == a.z * b.z * c.x * w) by (nonlinear_arith);
    assert(((d.x * z)) * a.z * b.z == a.z * b.z * d.x * z) by (nonlinear_arith);
    assert((((c.z * d.x - c.x * d.z) * x)) * b.z == (c.z * d.x) * x * b.z - (c.x * d.z) * x
        * b.z) by (nonlinear_arith);
    assert((c.z * d.x) * x * b.z == b.z * c.z * d.x * x) by (nonlinear_arith);
    assert((c.x * d.z) * x * b.z == b.z * c.x * d.z * x) by (nonlinear_arith);
    assert((d.z * (a.x * y - (b.x * x)) - d.x * (a.z * y - (b.z * x)) + ((a.z * b.x - a.x * b.z)
        * w)) * c.z == (d.z * (a.x * y - (b.x * x))) * c.z - (d.x * (a.z * y - (b.z * x))) * c.z
        + (((a.z * b.x - a.x * b.z) * w)) * c.z) by (nonlinear_arith);
    assert((d.z * (a.x * y - (b.x * x))) * c.z == d.z * (a.x * y) * c.z - d.z * ((b.x * x))
        * c.z) by (nonlinear_arith);
    assert(d.z * (a.x * y) * c.z == a.x * c.z * d.z * y) by (nonlinear_arith);
    assert(d.z * ((b.x * x)) * c.z == b.x * c.z * d.z * x) by (nonlinear_arith);
    assert((d.x * (a.z * y - (b.z * x))) * c.z == d.x * (a.z * y) * c.z - d.x * ((b.z * x))
        * c.z) by (nonlinear_arith);
    assert(d.x * (a.z * y) * c.z == a.z * c.z * d.x * y) by (nonlinear_arith);
    assert(d.x * ((b.z * x)) * c.z == b.z * c.z * d.x * x) by (nonlinear_arith);
    assert((((a.z * b.x - a.x * b.z) * w)) * c.z == (a.z * b.x) * w * c.z - (a.x * b.z) * w
        * c.z) by (nonlinear_arith);
    assert((a.z * b.x) * w * c.z == a.z * b.x * c.z * w) by (nonlinear_arith);
    assert((a.x * b.z) * w * c.z == a.x * b.z * c.z * w) by (nonlinear_arith);
    assert(((a.z * y - (b.z * x)) * c.x - (a.x * y - (b.x * x)) * c.z - ((a.z * b.x - a.x * b.z)
        * z)) * d.z == ((a.z * y - (b.z * x)) * c.x) * d.z - ((a.x * y - (b.x * x)) * c.z) * d.z
        - (((a.z * b.x - a.x * b.z) * z)) * d.z) by (nonlinear_arith);
    assert(((a.z * y - (b.z * x)) * c.x) * d.z == (a.z * y) * c.x * d.z - ((b.z * x)) * c.x
        * d.z) by (nonlinear_arith);
    assert((a.z * y) * c.x * d.z == a.z * c.x * d.z * y) by (nonlinear_arith);
    assert(((b.z * x)) * c.x * d.z == b.z * c.x * d.z * x) by (nonlinear_arith);
    assert(((a.x * y - (b.x * x)) * c.z) * d.z == (a.x * y) * c.z * d.z - ((b.x * x)) * c.z
        * d.z) by (nonlinear_arith);
    assert((a.x * y) * c.z * d.z == a.x * c.z * d.z * y) by (nonlinear_arith);
    assert(((b.x * x)) * c.z * d.z == b.x * c.z * d.z * x) by (nonlinear_arith);
    assert((((a.z * b.x - a.x * b.z) * z)) * d.z == (a.z * b.x) * z * d.z - (a.x * b.z) * z
        * d.z) by (nonlinear_arith);
    assert((a.z * b.x) * z * d.z == a.z * b.x * d.z * z) by (nonlinear_arith);
    assert((a.x * b.z) * z * d.z == a.x * b.z * d.z * z) by (nonlinear_arith);
}

proof fn lemma_right_entry_22(a: Vec3, b: Vec3, c: Vec3, d: Vec3, x: int, y: int, z: int, w: int)
    ensures
        (b.x * (c.y * w - (d.y * z)) - b.y * (c.x * w - (d.x * z)) + ((c.x * d.y - c.y * d.x) * y))
            * a.z + ((c.x * w - (d.x * z)) * a.y - (c.y * w - (d.y * z)) * a.x - ((c.x * d.y - c.y
            * d.x) * x)) * b.z + (d.x * (a.y * y - (b.y * x)) - d.y * (a.x * y - (b.x * x)) + ((a.x
            * b.y - a.y * b.x) * w)) * c.z + ((a.x * y - (b.x * x)) * c.y - (a.y * y - (b.y * x))
            * c.x - ((a.x * b.y - a.y * b.x) * z)) * d.z == a.x * b.y * c.z * w + a.x * c.y * d.z
            * y + a.x * d.y * b.z * z - a.x * d.y * c.z * y - a.x * c.y * b.z * w - a.x * b.y * d.z
            * z - b.x * a.y * c.z * w - c.x * a.y * d.z * y - d.x * a.y * b.z * z + d.x * a.y * c.z
            * y + c.x * a.y * b.z * w + b.x * a.y * d.z * z + b.x * c.y * a.z * w + c.x * d.y * a.z
            * y + d.x * b.y * a.z * z - d.x * c.y * a.z * y - c.x * b.y * a.z * w - b.x * d.y * a.z
            * z - b.x * c.y * d.z * x - c.x * d.y * b.z * x - d.x * b.y * c.z * x + d.x * c.y * b.z
            * x + c.x * b.y * d.z * x + b.x * d.y * c.z * x,
{
    assert((b.x * (c.y * w - (d.y * z)) - b.y * (c.x * w - (d.x * z)) + ((c.x * d.y - c.y * d.x)
        * y)) * a.z == (b.x * (c.y * w - (d.y * z))) * a.z - (b.y * (c.x * w - (d.x * z))) * a.z
        + (((c.x * d.y - c.y * d.x) * y)) * a.z) by (nonlinear_arith);
    assert((b.x * (c.y * w - (d.y * z))) * a.z == b.x * (c.y * w) * a.z - b.x * ((d.y * z))
        * a.z) by (nonlinear_arith);
    assert(b.x * (c.y * w) * a.z == a.z * b.x * c.y * w) by (nonlinear_arith);
    assert(b.x * ((d.y * z)) * a.z == a.z * b.x * d.y * z) by (nonlinear_arith);
    assert((b.y * (c.x * w - (d.x * z))) * a.z == b.y * (c.x * w) * a.z - b.y * ((d.x * z))
        * a.z) by (nonlinear_arith);
    assert(b.y * (c.x * w) * a.z == a.z * b.y * c.x * w) by (nonlinear_arith);
    assert(b.y * ((d.x * z)) * a.z == a.z * b.y * d.x * z) by (nonlinear_arith);
    assert((((c.x * d.y - c.y * d.x) * y)) * a.z == (c.x * d.y) * y * a.z - (c.y * d.x) * y
        * a.z) by (nonlinear_arith);
    assert((c.x * d.y) * y * a.z == a.z * c.x * d.y * y) by (nonlinear_arith);
    assert((c.y * d.x) * y * a.z == a.z * c.y * d.x * y) by (nonlinear_arith);
    assert(((c.x * w - (d.x * z)) * a.y - (c.y * w - (d.y * z)) * a.x - ((c.x * d.y - c.y * d.x)
        * x)) * b.z == ((c.x * w - (d.x * z)) * a.y) * b.z - ((c.y * w - (d.y * z)) * a.x) * b.z
        - (((c.x * d.y - c.y * d.x) * x)) * b.z) by (nonlinear_arith);
    assert(((c.x * w - (d.x * z)) * a.y) * b.z == (c.x * w) * a.y * b.z - ((d.x * z)) * a.y
        * b.z) by (nonlinear_arith);
    assert((c.x * w) * a.y * b.z == a.y * b.z * c.x * w) by (nonlinear_arith);
    assert(((d.x * z)) * a.y * b.z == a.y * b.z * d.x * z) by (nonlinear_arith);
    assert(((c.y * w - (d.y * z)) * a.x) * b.z == (c.y * w) * a.x * b.z - ((d.y * z)) * a.x
        * b.z) by (nonlinear_arith);
    assert((c.y * w) * a.x * b.z == a.x * b.z * c.y * w) by (nonlinear_arith);
    assert(((d.y * z)) * a.x * b.z == a.x * b.z * d.y * z) by (nonlinear_arith);
    assert((((c.x * d.y - c.y * d.x) * x)) * b.z == (c.x * d.y) * x * b.z - (c.y * d.x) * x
        * b.z) by (nonlinear_arith);
    assert((c.x * d.y) * x * b.z == b.z * c.x * d.y * x) by (nonlinear_arith);
    assert((c.y * d.x) * x * b.z == b.z * c.y * d.x * x) by (nonlinear_arith);
    assert((d.x * (a.y * y - (b.y * x)) - d.y * (a.x * y - (b.x * x)) + ((a.x * b.y - a.y * b.x)
        * w)) * c.z == (d.x * (a.y * y - (b.y * x))) * c.z - (d.y * (a.x * y - (b.x * x))) * c.z
        + (((a.x * b.y - a.y * b.x) * w)) * c.z) by (nonlinear_arith);
    assert((d.x * (a.y * y - (b.y * x))) * c.z == d.x * (a.y * y) * c.z - d.x * ((b.y * x))
        * c.z) by (nonlinear_arith);
    assert(d.x * (a.y * y) * c.z == a.y * c.z * d.x * y) by (nonlinear_arith);
    assert(d.x * ((b.y * x)) * c.z == b.y * c.z * d.x * x) by (nonlinear_arith);
    assert((d.y * (a.x * y - (b.x * x))) * c.z == d.y * (a.x * y) * c.z - d.y * ((b.x * x))
        * c.z) by (nonlinear_arith);
    assert(d.y * (a.x * y) * c.z == a.x * c.z * d.y * y) by (nonlinear_arith);
    assert(d.y * ((b.x * x)) * c.z == b.x * c.z * d.y * x) by (nonlinear_arith);
    assert((((a.x * b.y - a.y * b.x) * w)) * c.z == (a.x * b.y) * w * c.z - (a.y * b.x) * w
        * c.z) by (nonlinear_arith);
    assert((a.x * b.y) * w * c.z == a.x * b.y * c.z * w) by (nonlinear_arith);
    assert((a.y * b.x) * w * c.z == a.y * b.x * c.z * w) by (nonlinear_arith);
    assert(((a.x * y - (b.x * x)) * c.y - (a.y * y - (b.y * x)) * c.x - ((a.x * b.y - a.y * b.x)
        * z)) * d.z == ((a.x * y - (b.x * x)) * c.y) * d.z - ((a.y * y - (b.y * x)) * c.x) * d.z
        - (((a.x * b.y - a.y * b.x) * z)) * d.z) by (nonlinear_arith);
    assert(((a.x * y - (b.x * x)) * c.y) * d.z == (a.x * y) * c.y * d.z - ((b.x * x)) * c.y
        * d.z) by (nonlinear_arith);
    assert((a.x * y) * c.y * d.z == a.x * c.y * d.z * y) by (nonlinear_arith);
    assert(((b.x * x)) * c.y * d.z == b.x * c.y * d.z * x) by (nonlinear_arith);
    assert(((a.y * y - (b.y * x)) * c.x) * d.z == (a.y * y) * c.x * d.z - ((b.y * x)) * c.x
        * d.z) by (nonlinear_arith);
    assert((a.y * y) * c.x * d.z == a.y * c.x * d.z * y) by (nonlinear_arith);
    assert(((b.y * x)) * c.x * d.z == b.y * c.x * d.z * x) by (nonlinear_arith);
    assert((((a.x * b.y - a.y * b.x) * z)) * d.z == (a.x * b.y) * z * d.z - (a.y * b.x) * z
        * d.z) by (nonlinear_arith);
    assert((a.x * b.y) * z * d.z == a.x * b.y * d.z * z) by (nonlinear_arith);
    assert((a.y * b.x) * z * d.z == a.y * b.x * d.z * z) by (nonlinear_arith);
    assert(a.x * d.y * b.z * z == a.x * b.z * d.y * z) by (nonlinear_arith);
    assert(a.x * d.y * c.z * y == a.x * c.z * d.y * y) by (nonlinear_arith);
    assert(a.x * c.y * b.z * w == a.x * b.z * c.y * w) by (nonlinear_arith);
    assert(b.x * a.y * c.z * w == a.y * b.x * c.z * w) by (nonlinear_arith);
    assert(c.x * a.y * d.z * y == a.y * c.x * d.z * y) by (nonlinear_arith);
    assert(d.x * a.y * b.z * z == a.y * b.z * d.x * z) by (nonlinear_arith);
    assert(d.x * a.y * c.z * y == a.y * c.z * d.x * y) by (nonlinear_arith);
    assert(c.x * a.y * b.z * w == a.y * b.z * c.x * w) by (nonlinear_arith);
    assert(b.x * a.y * d.z * z == a.y * b.x * d.z * z) by (nonlinear_arith);
    assert(b.x * c.y * a.z * w == a.z * b.x * c.y * w) by (nonlinear_arith);
    assert(c.x * d.y * a.z * y == a.z * c.x * d.y * y) by (nonlinear_arith);
    assert(d.x * b.y * a.z * z == a.z * b.y * d.x * z) by (nonlinear_arith);
    assert(d.x * c.y * a.z * y == a.z * c.y * d.x * y) by (nonlinear_arith);
    assert(c.x * b.y * a.z * w == a.z * b.y * c.x * w) by (nonlinear_arith);
    assert(b.x * d.y * a.z * z == a.z * b.x * d.y * z) by (nonlinear_arith);
    assert(c.x * d.y * b.z * x == b.z * c.x * d.y * x) by (nonlinear_arith);
    assert(d.x * b.y * c.z * x == b.y * c.z * d.x * x) by (nonlinear_arith);
    assert(d.x * c.y * b.z * x == b.z * c.y * d.x * x) by (nonlinear_arith);
    assert(c.x * b.y * d.z * x == b.y * c.x * d.z * x) by (nonlinear_arith);
    assert(b.x * d.y * c.z * x == b.x * c.z * d.y * x) by (nonlinear_arith);
}

proof fn lemma_right_entry_23(a: Vec3, b: Vec3, c: Vec3, d: Vec3, x: int, y: int, z: int, w: int)
    ensures
        (-(b.x * (c.y * d.z - c.z * d.y) + b.y * (c.z * d.x - c.x * d.z) + b.z * (c.x * d.y - c.y
            * d.x))) * a.z + (a.x * (c.y * d.z - c.z * d.y) + a.y * (c.z * d.x - c.x * d.z) + a.z
            * (c.x * d.y - c.y * d.x)) * b.z + (-(d.x * (a.y * b.z - a.z * b.y) + d.y * (a.z * b.x
            - a.x * b.z) + d.z * (a.x * b.y - a.y * b.x))) * c.z + (c.x * (a.y * b.z - a.z * b.y)
            + c.y * (a.z * b.x - a.x * b.z) + c.z * (a.x * b.y - a.y * b.x)) * d.z == 0,
{
    assert((-(b.x * (c.y * d.z - c.z * d.y) + b.y * (c.z * d.x - c.x * d.z) + b.z * (c.x * d.y
        - c.y * d.x))) * a.z == -(((b.x * (c.y * d.z - c.z * d.y) + b.y * (c.z * d.x - c.x * d.z)
        + b.z * (c.x * d.y - c.y * d.x))) * a.z)) by (nonlinear_arith);
    assert(((b.x * (c.y * d.z - c.z * d.y) + b.y * (c.z * d.x - c.x * d.z) + b.z * (c.x * d.y - c.y
        * d.x))) * a.z == (b.x * (c.y * d.z - c.z * d.y)) * a.z + (b.y * (c.z * d.x - c.x * d.z))
        * a.z + (b.z * (c.x * d.y - c.y * d.x)) * a.z) by (nonlinear_arith);
    assert((b.x * (c.y * d.z - c.z * d.y)) * a.z == b.x * (c.y * d.z) * a.z - b.x * (c.z * d.y)
        * a.z) by (nonlinear_arith);
    assert(b.x * (c.y * d.z) * a.z == a.z * b.x * c.y * d.z) by (nonlinear_arith);
    assert(b.x * (c.z * d.y) * a.z == a.z * b.x * c.z * d.y) by (nonlinear_arith);
    assert((b.y * (c.z * d.x - c.x * d.z)) * a.z == b.y * (c.z * d.x) * a.z - b.y * (c.x * d.z)
        * a.z) by (nonlinear_arith);
    assert(b.y * (c.z * d.x) * a.z == a.z * b.y * c.z * d.x) by (nonlinear_arith);
    assert(b.y * (c.x * d.z) * a.z == a.z * b.y * c.x * d.z) by (nonlinear_arith);
    assert((b.z * (c.x * d.y - c.y * d.x)) * a.z == b.z * (c.x * d.y) * a.z - b.z * (c.y * d.x)
        * a.z) by (nonlinear_arith);
    assert(b.z * (c.x * d.y) * a.z == a.z * b.z * c.x * d.y) by (nonlinear_arith);
    assert(b.z * (c.y * d.x) * a.z == a.z * b.z * c.y * d.x) by (nonlinear_arith);
    assert((a.x * (c.y * d.z - c.z * d.y) + a.y * (c.z * d.x - c.x * d.z) + a.z * (c.x * d.y - c.y
        * d.x)) * b.z == (a.x * (c.y * d.z - c.z * d.y)) * b.z + (a.y * (c.z * d.x - c.x * d.z))
        * b.z + (a.z * (c.x * d.y - c.y * d.x)) * b.z) by (nonlinear_arith);
    assert((a.x * (c.y * d.z - c.z * d.y)) * b.z == a.x * (c.y * d.z) * b.z - a.x * (c.z * d.y)
        * b.z) by (nonlinear_arith);
    assert(a.x * (c.y * d.z) * b.z == a.x * b.z * c.y * d.z) by (nonlinear_arith);
    assert(a.x * (c.z * d.y) * b.z == a.x * b.z * c.z * d.y) by (nonlinear_arith);
    assert((a.y * (c.z * d.x - c.x * d.z)) * b.z == a.y * (c.z * d.x) * b.z - a.y * (c.x * d.z)
        * b.z) by (nonlinear_arith);
    assert(a.y * (c.z * d.x) * b.z == a.y * b.z * c.z * d.x) by (nonlinear_arith);
    assert(a.y * (c.x * d.z) * b.z == a.y * b.z * c.x * d.z) by (nonlinear_arith);
    assert((a.z * (c.x * d.y - c.y * d.x)) * b.z == a.z * (c.x * d.y) * b.z - a.z * (c.y * d.x)
        * b.z) by (nonlinear_arith);
    assert(a.z * (c.x * d.y) * b.z == a.z * b.z * c.x * d.y) by (nonlinear_arith);
    assert(a.z * (c.y * d.x) * b.z == a.z * b.z * c.y * d.x) by (nonlinear_arith);
    assert((-(d.x * (a.y * b.z - a.z * b.y) + d.y * (a.z * b.x - a.x * b.z) + d.z * (a.x * b.y
        - a.y * b.x))) * c.z == -(((d.x * (a.y * b.z - a.z * b.y) + d.y * (a.z * b.x - a.x * b.z)
        + d.z * (a.x * b.y - a.y * b.x))) * c.z)) by (nonlinear_arith);
    assert(((d.x * (a.y * b.z - a.z * b.y) + d.y * (a.z * b.x - a.x * b.z) + d.z * (a.x * b.y - a.y
        * b.x))) * c.z == (d.x * (a.y * b.z - a.z * b.y)) * c.z + (d.y * (a.z * b.x - a.x * b.z))
        * c.z + (d.z * (a.x * b.y - a.y * b.x)) * c.z) by (nonlinear_arith);
    assert((d.x * (a.y * b.z - a.z * b.y)) * c.z == d.x * (a.y * b.z) * c.z - d.x * (a.z * b.y)
        * c.z) by (nonlinear_arith);
    assert(d.x * (a.y * b.z) * c.z == a.y * b.z * c.z * d.x) by (nonlinear_arith);
    assert(d.x * (a.z * b.y) * c.z == a.z * b.y * c.z * d.x) by (nonlinear_arith);
    assert((d.y * (a.z * b.x - a.x * b.z)) * c.z == d.y * (a.z * b.x) * c.z - d.y * (a.x * b.z)
        * c.z) by (nonlinear_arith);
    assert(d.y * (a.z * b.x) * c.z == a.z * b.x * c.z * d.y) by (nonlinear_arith);
    assert(d.y * (a.x * b.z) * c.z == a.x * b.z * c.z * d.y) by (nonlinear_arith);
    assert((d.z * (a.x * b.y - a.y * b.x)) * c.z == d.z * (a.x * b.y) * c.z - d.z * (a.y * b.x)
        * c.z) by (nonlinear_arith);
    assert(d.z * (a.x * b.y) * c.z == a.x * b.y * c.z * d.z) by (nonlinear_arith);
    assert(d.z * (a.y * b.x) * c.z == a.y * b.x * c.z * d.z) by (nonlinear_arith);
    assert((c.x * (a.y * b.z - a.z * b.y) + c.y * (a.z * b.x - a.x * b.z) + c.z * (a.x * b.y - a.y
        * b.x)) * d.z == (c.x * (a.y * b.z - a.z * b.y)) * d.z + (c.y * (a.z * b.x - a.x * b.z))
        * d.z + (c.z * (a.x * b.y - a.y * b.x)) * d.z) by (nonlinear_arith);
    assert((c.x * (a.y * b.z - a.z * b.y)) * d.z == c.x * (a.y * b.z) * d.z - c.x * (a.z * b.y)
        * d.z) by (nonlinear_arith);
    assert(c.x * (a.y * b.z) * d.z == a.y * b.z * c.x * d.z) by (nonlinear_arith);
    assert(c.x * (a.z * b.y) * d.z == a.z * b.y * c.x * d.z) by (nonlinear_arith);
    assert((c.y * (a.z * b.x - a.x * b.z)) * d.z == c.y * (a.z * b.x) * d.z - c.y * (a.x * b.z)
        * d.z) by (nonlinear_arith);
    assert(c.y * (a.z * b.x) * d.z == a.z * b.x * c.y * d.z) by (nonlinear_arith);
    assert(c.y * (a.x * b.z) * d.z == a.x * b.z * c.y * d.z) by (nonlinear_arith);
    assert((c.z * (a.x * b.y - a.y * b.x)) * d.z == c.z * (a.x * b.y) * d.z - c.z * (a.y * b.x)
        * d.z) by (nonlinear_arith);
    assert(c.z * (a.x * b.y) * d.z == a.x * b.y * c.z * d.z) by (nonlinear_arith);
    assert(c.z * (a.y * b.x) * d.z == a.y * b.x * c.z * d.z) by (nonlinear_arith);
}

proof fn lemma_right_entry_30(a: Vec3, b: Vec3, c: Vec3, d: Vec3, x: int, y: int, z: int, w: int)
    ensures
        (b.y * (c.z * w - (d.z * z)) - b.z * (c.y * w - (d.y * z)) + ((c.y * d.z - c.z * d.y) * y))
            * x + ((c.y * w - (d.y * z)) * a.z - (c.z * w - (d.z * z)) * a.y - ((c.y * d.z - c.z
            * d.y) * x)) * y + (d.y * (a.z * y - (b.z * x)) - d.z * (a.y * y - (b.y * x)) + ((a.y
            * b.z - a.z * b.y) * w)) * z + ((a.y * y - (b.y * x)) * c.z - (a.z * y - (b.z * x))
            * c.y - ((a.y * b.z - a.z * b.y) * z)) * w == 0,
{
    assert((b.y * (c.z * w - (d.z * z)) - b.z * (c.y * w - (d.y * z)) + ((c.y * d.z - c.z * d.y)
        * y)) * x == (b.y * (c.z * w - (d.z * z))) * x - (b.z * (c.y * w - (d.y * z))) * x + (((c.y
        * d.z - c.z * d.y) * y)) * x) by (nonlinear_arith);
    assert((b.y * (c.z * w - (d.z * z))) * x == b.y * (c.z * w) * x - b.y * ((d.z * z))
        * x) by (nonlinear_arith);
    assert(b.y * (c.z * w) * x == b.y * c.z * w * x) by (nonlinear_arith);
    assert(b.y * ((d.z * z)) * x == b.y * d.z * x * z) by (nonlinear_arith);
    assert((b.z * (c.y * w - (d.y * z))) * x == b.z * (c.y * w) * x - b.z * ((d.y * z))
        * x) by (nonlinear_arith);
    assert(b.z * (c.y * w) * x == b.z * c.y * w * x) by (nonlinear_arith);
    assert(b.z * ((d.y * z)) * x == b.z * d.y * x * z) by (nonlinear_arith);
    assert((((c.y * d.z - c.z * d.y) * y)) * x == (c.y * d.z) * y * x - (c.z * d.y) * y
        * x) by (nonlinear_arith);
    assert((c.y * d.z) * y * x == c.y * d.z * x * y) by (nonlinear_arith);
    assert((c.z * d.y) * y * x == c.z * d.y * x * y) by (nonlinear_arith);
    assert(((c.y * w - (d.y * z)) * a.z - (c.z * w - (d.z * z)) * a.y - ((c.y * d.z - c.z * d.y)
        * x)) * y == ((c.y * w - (d.y * z)) * a.z) * y - ((c.z * w - (d.z * z)) * a.y) * y - (((c.y
        * d.z - c.z * d.y) * x)) * y) by (nonlinear_arith);
    assert(((c.y * w - (d.y * z)) * a.z) * y == (c.y * w) * a.z * y - ((d.y * z)) * a.z
        * y) by (nonlinear_arith);
    assert((c.y * w) * a.z * y == a.z * c.y * w * y) by (nonlinear_arith);
    assert(((d.y * z)) * a.z * y == a.z * d.y * y * z) by (nonlinear_arith);
    assert(((c.z * w - (d.z * z)) * a.y) * y == (c.z * w) * a.y * y - ((d.z * z)) * a.y
        * y) by (nonlinear_arith);
    assert((c.z * w) * a.y * y == a.y * c.z * w * y) by (nonlinear_arith);
    assert(((d.z * z)) * a.y * y == a.y * d.z * y * z) by (nonlinear_arith);
    assert((((c.y * d.z - c.z * d.y) * x)) * y == (c.y * d.z) * x * y - (c.z * d.y) * x
        * y) by (nonlinear_arith);
    assert((c.y * d.z) * x * y == c.y * d.z * x * y) by (nonlinear_arith);
    assert((c.z * d.y) * x * y == c.z * d.y * x * y) by (nonlinear_arith);
    assert((d.y * (a.z * y - (b.z * x)) - d.z * (a.y * y - (b.y * x)) + ((a.y * b.z - a.z * b.y)
        * w)) * z == (d.y * (a.z * y - (b.z * x))) * z - (d.z * (a.y * y - (b.y * x))) * z + (((a.y
        * b.z - a.z * b.y) * w)) * z) by (nonlinear_arith);
    assert((d.y * (a.z * y - (b.z * x))) * z == d.y * (a.z * y) * z - d.y * ((b.z * x))
        * z) by (nonlinear_arith);
    assert(d.y * (a.z * y) * z == a.z * d.y * y * z) by (nonlinear_arith);
    assert(d.y * ((b.z * x)) * z == b.z * d.y * x * z) by (nonlinear_arith);
    assert((d.z * (a.y * y - (b.y * x))) * z == d.z * (a.y * y) * z - d.z * ((b.y * x))
        * z) by (nonlinear_arith);
    assert(d.z * (a.y * y) * z == a.y * d.z * y * z) by (nonlinear_arith);
    assert(d.z * ((b.y * x)) * z == b.y * d.z * x * z) by (nonlinear_arith);
    assert((((a.y * b.z - a.z * b.y) * w)) * z == (a.y * b.z) * w * z - (a.z * b.y) * w
        * z) by (nonlinear_arith);
    assert((a.y * b.z) * w * z == a.y * b.z * w * z) by (nonlinear_arith);
    assert((a.z * b.y) * w * z == a.z * b.y * w * z) by (nonlinear_arith);
    assert(((a.y * y - (b.y * x)) * c.z - (a.z * y - (b.z * x)) * c.y - ((a.y * b.z - a.z * b.y)
        * z)) * w == ((a.y * y - (b.y * x)) * c.z) * w - ((a.z * y - (b.z * x)) * c.y) * w - (((a.y
        * b.z - a.z * b.y) * z)) * w) by (nonlinear_arith);
    assert(((a.y * y - (b.y * x)) * c.z) * w == (a.y * y) * c.z * w - ((b.y * x)) * c.z
        * w) by (nonlinear_arith);
    assert((a.y * y) * c.z * w == a.y * c.z * w * y) by (nonlinear_arith);
    assert(((b.y * x)) * c.z * w == b.y * c.z * w * x) by (nonlinear_arith);
    assert(((a.z * y - (b.z * x)) * c.y) * w == (a.z * y) * c.y * w - ((b.z * x)) * c.y
        * w) by (nonlinear_arith);
    assert((a.z * y) * c.y * w == a.z * c.y * w * y) by (nonlinear_arith);
    assert(((b.z * x)) * c.y * w == b.z * c.y * w * x) by (nonlinear_arith);
    assert((((a.y * b.z - a.z * b.y) * z)) * w == (a.y * b.z) * z * w - (a.z * b.y) * z
        * w) by (nonlinear_arith);
    assert((a.y * b.z) * z * w == a.y * b.z * w * z) by (nonlinear_arith);
    assert((a.z * b.y) * z * w == a.z * b.y * w * z) by (nonlinear_arith);
}

proof fn lemma_right_entry_31(a: Vec3, b: Vec3, c: Vec3, d: Vec3, x: int, y: int, z: int, w: int)
    ensures
        (b.z * (c.x * w - (d.x * z)) - b.x * (c.z * w - (d.z * z)) + ((c.z * d.x - c.x * d.z) * y))
            * x + ((c.z * w - (d.z * z)) * a.x - (c.x * w - (d.x * z)) * a.z - ((c.z * d.x - c.x
            * d.z) * x)) * y + (d.z * (a.x * y - (b.x * x)) - d.x * (a.z * y - (b.z * x)) + ((a.z
            * b.x - a.x * b.z) * w)) * z + ((a.z * y - (b.z * x)) * c.x - (a.x * y - (b.x * x))
            * c.z - ((a.z * b.x - a.x * b.z) * z)) * w == 0,
{
    assert((b.z * (c.x * w - (d.x * z)) - b.x * (c.z * w - (d.z * z)) + ((c.z * d.x - c.x * d.z)
        * y)) * x == (b.z * (c.x * w - (d.x * z))) * x - (b.x * (c.z * w - (d.z * z))) * x + (((c.z
        * d.x - c.x * d.z) * y)) * x) by (nonlinear_arith);
    assert((b.z * (c.x * w - (d.x * z))) * x == b.z * (c.x * w) * x - b.z * ((d.x * z))
        * x) by (nonlinear_arith);
    assert(b.z * (c.x * w) * x == b.z * c.x * w * x) by (nonlinear_arith);
    assert(b.z * ((d.x * z)) * x == b.z * d.x * x * z) by (nonlinear_arith);
    assert((b.x * (c.z * w - (d.z * z))) * x == b.x * (c.z * w) * x - b.x * ((d.z * z))
        * x) by (nonlinear_arith);
    assert(b.x * (c.z * w) * x == b.x * c.z * w * x) by (nonlinear_arith);
    assert(b.x * ((d.z * z)) * x == b.x * d.z * x * z) by (nonlinear_arith);
    assert((((c.z * d.x - c.x * d.z) * y)) * x == (c.z * d.x) * y * x - (c.x * d.z) * y
        * x) by (nonlinear_arith);
    assert((c.z * d.x) * y * x == c.z * d.x * x * y) by (nonlinear_arith);
    assert((c.x * d.z) * y * x == c.x * d.z * x * y) by (nonlinear_arith);
    assert(((c.z * w - (d.z * z)) * a.x - (c.x * w - (d.x * z)) * a.z - ((c.z * d.x - c.x * d.z)
        * x)) * y == ((c.z * w - (d.z * z)) * a.x) * y - ((c.x * w - (d.x * z)) * a.z) * y - (((c.z
        * d.x - c.x * d.z) * x)) * y) by (nonlinear_arith);
    assert(((c.z * w - (d.z * z)) * a.x) * y == (c.z * w) * a.x * y - ((d.z * z)) * a.x
        * y) by (nonlinear_arith);
    assert((c.z * w) * a.x * y == a.x * c.z * w * y) by (nonlinear_arith);
    assert(((d.z * z)) * a.x * y == a.x * d.z * y * z) by (nonlinear_arith);
    assert(((c.x * w - (d.x * z)) * a.z) * y == (c.x * w) * a.z * y - ((d.x * z)) * a.z
        * y) by (nonlinear_arith);
    assert((c.x * w) * a.z * y == a.z * c.x * w * y) by (nonlinear_arith);
    assert(((d.x * z)) * a.z * y == a.z * d.x * y * z) by (nonlinear_arith);
    assert((((c.z * d.x - c.x * d.z) * x)) * y == (c.z * d.x) * x * y - (c.x * d.z) * x
        * y) by (nonlinear_arith);
    assert((c.z * d.x) * x * y == c.z * d.x * x * y) by (nonlinear_arith);
    assert((c.x * d.z) * x * y == c.x * d.z * x * y) by (nonlinear_arith);
    assert((d.z * (a.x * y - (b.x * x)) - d.x * (a.z * y - (b.z * x)) + ((a.z * b.x - a.x * b.z)
        * w)) * z == (d.z * (a.x * y - (b.x * x))) * z - (d.x * (a.z * y - (b.z * x))) * z + (((a.z
        * b.x - a.x * b.z) * w)) * z) by (nonlinear_arith);
    assert((d.z * (a.x * y - (b.x * x))) * z == d.z * (a.x * y) * z - d.z * ((b.x * x))
        * z) by (nonlinear_arith);
    assert(d.z * (a.x * y) * z == a.x * d.z * y * z) by (nonlinear_arith);
    assert(d.z * ((b.x * x)) * z == b.x * d.z * x * z) by (nonlinear_arith);
    assert((d.x * (a.z * y - (b.z * x))) * z == d.x * (a.z * y) * z - d.x * ((b.z * x))
        * z) by (nonlinear_arith);
    assert(d.x * (a.z * y) * z == a.z * d.x * y * z) by (nonlinear_arith);
    assert(d.x * ((b.z * x)) * z == b.z * d.x * x * z) by (nonlinear_arith);
    assert((((a.z * b.x - a.x * b.z) * w)) * z == (a.z * b.x) * w * z - (a.x * b.z) * w
        * z) by (nonlinear_arith);
    assert((a.z * b.x) * w * z == a.z * b.x * w * z) by (nonlinear_arith);
    assert((a.x * b.z) * w * z == a.x * b.z * w * z) by (nonlinear_arith);
    assert(((a.z * y - (b.z * x)) * c.x - (a.x * y - (b.x * x)) * c.z - ((a.z * b.x - a.x * b.z)
        * z)) * w == ((a.z * y - (b.z * x)) * c.x) * w - ((a.x * y - (b.x * x)) * c.z) * w - (((a.z
        * b.x - a.x * b.z) * z)) * w) by (nonlinear_arith);
    assert(((a.z * y - (b.z * x)) * c.x) * w == (a.z * y) * c.x * w - ((b.z * x)) * c.x
        * w) by (nonlinear_arith);
    assert((a.z * y) * c.x * w == a.z * c.x * w * y) by (nonlinear_arith);
    assert(((b.z * x)) * c.x * w == b.z * c.x * w * x) by (nonlinear_arith);
    assert(((a.x * y - (b.x * x)) * c.z) * w == (a.x * y) * c.z * w - ((b.x * x)) * c.z
        * w) by (nonlinear_arith);
    assert((a.x * y) * c.z * w == a.x * c.z * w * y) by (nonlinear_arith);
    assert(((b.x * x)) * c.z * w == b.x * c.z * w * x) by (nonlinear_arith);
    assert((((a.z * b.x - a.x * b.z) * z)) * w == (a.z * b.x) * z * w - (a.x * b.z) * z
        * w) by (nonlinear_arith);
    assert((a.z * b.x) * z * w == a.z * b.x * w * z) by (nonlinear_arith);
    assert((a.x * b.z) * z * w == a.x * b.z * w * z) by (nonlinear_arith);
}

proof fn lemma_right_entry_32(a: Vec3, b: Vec3, c: Vec3, d: Vec3, x: int, y: int, z: int, w: int)
    ensures
        (b.x * (c.y * w - (d.y * z)) - b.y * (c.x * w - (d.x * z)) + ((c.x * d.y - c.y * d.x) * y))
            * x + ((c.x * w - (d.x * z)) * a.y - (c.y * w - (d.y * z)) * a.x - ((c.x * d.y - c.y
            * d.x) * x)) * y + (d.x * (a.y * y - (b.y * x)) - d.y * (a.x * y - (b.x * x)) + ((a.x
            * b.y - a.y * b.x) * w)) * z + ((a.x * y - (b.x * x)) * c.y - (a.y * y - (b.y * x))
            * c.x - ((a.x * b.y - a.y * b.x) * z)) * w == 0,
{
    assert((b.x * (c.y * w - (d.y * z)) - b.y * (c.x * w - (d.x * z)) + ((c.x * d.y - c.y * d.x)
        * y)) * x == (b.x * (c.y * w - (d.y * z))) * x - (b.y * (c.x * w - (d.x * z))) * x + (((c.x
        * d.y - c.y * d.x) * y)) * x) by (nonlinear_arith);
    assert((b.x * (c.y * w - (d.y * z))) * x == b.x * (c.y * w) * x - b.x * ((d.y * z))
        * x) by (nonlinear_arith);
    assert(b.x * (c.y * w) * x == b.x * c.y * w * x) by (nonlinear_arith);
    assert(b.x * ((d.y * z)) * x == b.x * d.y * x * z) by (nonlinear_arith);
    assert((b.y * (c.x * w - (d.x * z))) * x == b.y * (c.x * w) * x - b.y * ((d.x * z))
        * x) by (nonlinear_arith);
    assert(b.y * (c.x * w) * x == b.y * c.x * w * x) by (nonlinear_arith);
    assert(b.y * ((d.x * z)) * x == b.y * d.x * x * z) by (nonlinear_arith);
    assert((((c.x * d.y - c.y * d.x) * y)) * x == (c.x * d.y) * y * x - (c.y * d.x) * y
        * x) by (nonlinear_arith);
    assert((c.x * d.y) * y * x == c.x * d.y * x * y) by (nonlinear_arith);
    assert((c.y * d.x) * y * x == c.y * d.x * x * y) by (nonlinear_arith);
    assert(((c.x * w - (d.x * z)) * a.y - (c.y * w - (d.y * z)) * a.x - ((c.x * d.y - c.y * d.x)
        * x)) * y == ((c.x * w - (d.x * z)) * a.y) * y - ((c.y * w - (d.y * z)) * a.x) * y - (((c.x
        * d.y - c.y * d.x) * x)) * y) by (nonlinear_arith);
    assert(((c.x * w - (d.x * z)) * a.y) * y == (c.x * w) * a.y * y - ((d.x * z)) * a.y
        * y) by (nonlinear_arith);
    assert((c.x * w) * a.y * y == a.y * c.x * w * y) by (nonlinear_arith);
    assert(((d.x * z)) * a.y * y == a.y * d.x * y * z) by (nonlinear_arith);
    assert(((c.y * w - (d.y * z)) * a.x) * y == (c.y * w) * a.x * y - ((d.y * z)) * a.x
        * y) by (nonlinear_arith);
    assert((c.y * w) * a.x * y == a.x * c.y * w * y) by (nonlinear_arith);
    assert(((d.y * z)) * a.x * y == a.x * d.y * y * z) by (nonlinear_arith);
    assert((((c.x * d.y - c.y * d.x) * x)) * y == (c.x * d.y) * x * y - (c.y * d.x) * x
        * y) by (nonlinear_arith);
    assert((c.x * d.y) * x * y == c.x * d.y * x * y) by (nonlinear_arith);
    assert((c.y * d.x) * x * y == c.y * d.x * x * y) by (nonlinear_arith);
    assert((d.x * (a.y * y - (b.y * x)) - d.y * (a.x * y - (b.x * x)) + ((a.x * b.y - a.y * b.x)
        * w)) * z == (d.x * (a.y * y - (b.y * x))) * z - (d.y * (a.x * y - (b.x * x))) * z + (((a.x
        * b.y - a.y * b.x) * w)) * z) by (nonlinear_arith);
    assert((d.x * (a.y * y - (b.y * x))) * z == d.x * (a.y * y) * z - d.x * ((b.y * x))
        * z) by (nonlinear_arith);
    assert(d.x * (a.y * y) * z == a.y * d.x * y * z) by (nonlinear_arith);
    assert(d.x * ((b.y * x)) * z == b.y * d.x * x * z) by (nonlinear_arith);
    assert((d.y * (a.x * y - (b.x * x))) * z == d.y * (a.x * y) * z - d.y * ((b.x * x))
        * z) by (nonlinear_arith);
    assert(d.y * (a.x * y) * z == a.x * d.y * y * z) by (nonlinear_arith);
    assert(d.y * ((b.x * x)) * z == b.x * d.y * x * z) by (nonlinear_arith);
    assert((((a.x * b.y - a.y * b.x) * w)) * z == (a.x * b.y) * w * z - (a.y * b.x) * w
        * z) by (nonlinear_arith);
    assert((a.x * b.y) * w * z == a.x * b.y * w * z) by (nonlinear_arith);
    assert((a.y * b.x) * w * z == a.y * b.x * w * z) by (nonlinear_arith);
    assert(((a.x * y - (b.x * x)) * c.y - (a.y * y - (b.y * x)) * c.x - ((a.x * b.y - a.y * b.x)
        * z)) * w == ((a.x * y - (b.x * x)) * c.y) * w - ((a.y * y - (b.y * x)) * c.x) * w - (((a.x
        * b.y - a.y * b.x) * z)) * w) by (nonlinear_arith);
    assert(((a.x * y - (b.x * x)) * c.y) * w == (a.x * y) * c.y * w - ((b.x * x)) * c.y
        * w) by (nonlinear_arith);
    assert((a.x * y) * c.y * w == a.x * c.y * w * y) by (nonlinear_arith);
    assert(((b.x * x)) * c.y * w == b.x * c.y * w * x) by (nonlinear_arith);
    assert(((a.y * y - (b.y * x)) * c.x) * w == (a.y * y) * c.x * w - ((b.y * x)) * c.x
        * w) by (nonlinear_arith);
    assert((a.y * y) * c.x * w == a.y * c.x * w * y) by (nonlinear_arith);
    assert(((b.y * x)) * c.x * w == b.y * c.x * w * x) by (nonlinear_arith);
    assert((((a.x * b.y - a.y * b.x) * z)) * w == (a.x * b.y) * z * w - (a.y * b.x) * z
        * w) by (nonlinear_arith);
    assert((a.x * b.y) * z * w == a.x * b.y * w * z) by (nonlinear_arith);
    assert((a.y * b.x) * z * w == a.y * b.x * w * z) by (nonlinear_arith);
}

proof fn lemma_right_entry_33(a: Vec3, b: Vec3, c: Vec3, d: Vec3, x: int, y: int, z: int, w: int)
    ensures
        (-(b.x * (c.y * d.z - c.z * d.y) + b.y * (c.z * d.x - c.x * d.z) + b.z * (c.x * d.y - c.y
            * d.x))) * x + (a.x * (c.y * d.z - c.z * d.y) + a.y * (c.z * d.x - c.x * d.z) + a.z
            * (c.x * d.y - c.y * d.x)) * y + (-(d.x * (a.y * b.z - a.z * b.y) + d.y * (a.z * b.x
            - a.x * b.z) + d.z * (a.x * b.y - a.y * b.x))) * z + (c.x * (a.y * b.z - a.z * b.y)
            + c.y * (a.z * b.x - a.x * b.z) + c.z * (a.x * b.y - a.y * b.x)) * w == a.x * b.y * c.z
            * w + a.x * c.y * d.z * y + a.x * d.y * b.z * z - a.x * d.y * c.z * y - a.x * c.y * b.z
            * w - a.x * b.y * d.z * z - b.x * a.y * c.z * w - c.x * a.y * d.z * y - d.x * a.y * b.z
            * z + d.x * a.y * c.z * y + c.x * a.y * b.z * w + b.x * a.y * d.z * z + b.x * c.y * a.z
            * w + c.x * d.y * a.z * y + d.x * b.y * a.z * z - d.x * c.y * a.z * y - c.x * b.y * a.z
            * w - b.x * d.y * a.z * z - b.x * c.y * d.z * x - c.x * d.y * b.z * x - d.x * b.y * c.z
            * x + d.x * c.y * b.z * x + c.x * b.y * d.z * x + b.x * d.y * c.z * x,
{
    assert((-(b.x * (c.y * d.z - c.z * d.y) + b.y * (c.z * d.x - c.x * d.z) + b.z * (c.x * d.y
        - c.y * d.x))) * x == -(((b.x * (c.y * d.z - c.z * d.y) + b.y * (c.z * d.x - c.x * d.z)
        + b.z * (c.x * d.y - c.y * d.x))) * x)) by (nonlinear_arith);
    assert(((b.x * (c.y * d.z - c.z * d.y) + b.y * (c.z * d.x - c.x * d.z) + b.z * (c.x * d.y - c.y
        * d.x))) * x == (b.x * (c.y * d.z - c.z * d.y)) * x + (b.y * (c.z * d.x - c.x * d.z)) * x
        + (b.z * (c.x * d.y - c.y * d.x)) * x) by (nonlinear_arith);
    assert((b.x * (c.y * d.z - c.z * d.y)) * x == b.x * (c.y * d.z) * x - b.x * (c.z * d.y)
        * x) by (nonlinear_arith);
    assert(b.x * (c.y * d.z) * x == b.x * c.y * d.z * x) by (nonlinear_arith);
    assert(b.x * (c.z * d.y) * x == b.x * c.z * d.y * x) by (nonlinear_arith);
    assert((b.y * (c.z * d.x - c.x * d.z)) * x == b.y * (c.z * d.x) * x - b.y * (c.x * d.z)
        * x) by (nonlinear_arith);
    assert(b.y * (c.z * d.x) * x == b.y * c.z * d.x * x) by (nonlinear_arith);
    assert(b.y * (c.x * d.z) * x == b.y * c.x * d.z * x) by (nonlinear_arith);
    assert((b.z * (c.x * d.y - c.y * d.x)) * x == b.z * (c.x * d.y) * x - b.z * (c.y * d.x)
        * x) by (nonlinear_arith);
    assert(b.z * (c.x * d.y) * x == b.z * c.x * d.y * x) by (nonlinear_arith);
    assert(b.z * (c.y * d.x) * x == b.z * c.y * d.x * x) by (nonlinear_arith);
    assert((a.x * (c.y * d.z - c.z * d.y) + a.y * (c.z * d.x - c.x * d.z) + a.z * (c.x * d.y - c.y
        * d.x)) * y == (a.x * (c.y * d.z - c.z * d.y)) * y + (a.y * (c.z * d.x - c.x * d.z)) * y
        + (a.z * (c.x * d.y - c.y * d.x)) * y) by (nonlinear_arith);
    assert((a.x * (c.y * d.z - c.z * d.y)) * y == a.x * (c.y * d.z) * y - a.x * (c.z * d.y)
        * y) by (nonlinear_arith);
    assert(a.x * (c.y * d.z) * y == a.x * c.y * d.z * y) by (nonlinear_arith);
    assert(a.x * (c.z * d.y) * y == a.x * c.z * d.y * y) by (nonlinear_arith);
    assert((a.y * (c.z * d.x - c.x * d.z)) * y == a.y * (c.z * d.x) * y - a.y * (c.x * d.z)
        * y) by (nonlinear_arith);
    assert(a.y * (c.z * d.x) * y == a.y * c.z * d.x * y) by (nonlinear_arith);
    assert(a.y * (c.x * d.z) * y == a.y * c.x * d.z * y) by (nonlinear_arith);
    assert((a.z * (c.x * d.y - c.y * d.x)) * y == a.z * (c.x * d.y) * y - a.z * (c.y * d.x)
        * y) by (nonlinear_arith);
    assert(a.z * (c.x * d.y) * y == a.z * c.x * d.y * y) by (nonlinear_arith);
    assert(a.z * (c.y * d.x) * y == a.z * c.y * d.x * y) by (nonlinear_arith);
    assert((-(d.x * (a.y * b.z - a.z * b.y) + d.y * (a.z * b.x - a.x * b.z) + d.z * (a.x * b.y
        - a.y * b.x))) * z == -(((d.x * (a.y * b.z - a.z * b.y) + d.y * (a.z * b.x - a.x * b.z)
        + d.z * (a.x * b.y - a.y * b.x))) * z)) by (nonlinear_arith);
    assert(((d.x * (a.y * b.z - a.z * b.y) + d.y * (a.z * b.x - a.x * b.z) + d.z * (a.x * b.y - a.y
        * b.x))) * z == (d.x * (a.y * b.z - a.z * b.y)) * z + (d.y * (a.z * b.x - a.x * b.z)) * z
        + (d.z * (a.x * b.y - a.y * b.x)) * z) by (nonlinear_arith);
    assert((d.x * (a.y * b.z - a.z * b.y)) * z == d.x * (a.y * b.z) * z - d.x * (a.z * b.y)
        * z) by (nonlinear_arith);
    assert(d.x * (a.y * b.z) * z == a.y * b.z * d.x * z) by (nonlinear_arith);
    assert(d.x * (a.z * b.y) * z == a.z * b.y * d.x * z) by (nonlinear_arith);
    assert((d.y * (a.z * b.x - a.x * b.z)) * z == d.y * (a.z * b.x) * z - d.y * (a.x * b.z)
        * z) by (nonlinear_arith);
    assert(d.y * (a.z * b.x) * z == a.z * b.x * d.y * z) by (nonlinear_arith);
    assert(d.y * (a.x * b.z) * z == a.x * b.z * d.y * z) by (nonlinear_arith);
    assert((d.z * (a.x * b.y - a.y * b.x)) * z == d.z * (a.x * b.y) * z - d.z * (a.y * b.x)
        * z) by (nonlinear_arith);
    assert(d.z * (a.x * b.y) * z == a.x * b.y * d.z * z) by (nonlinear_arith);
    assert(d.z * (a.y * b.x) * z == a.y * b.x * d.z * z) by (nonlinear_arith);
    assert((c.x * (a.y * b.z - a.z * b.y) + c.y * (a.z * b.x - a.x * b.z) + c.z * (a.x * b.y - a.y
        * b.x)) * w == (c.x * (a.y * b.z - a.z * b.y)) * w + (c.y * (a.z * b.x - a.x * b.z)) * w
        + (c.z * (a.x * b.y - a.y * b.x)) * w) by (nonlinear_arith);
    assert((c.x * (a.y * b.z - a.z * b.y)) * w == c.x * (a.y * b.z) * w - c.x * (a.z * b.y)
        * w) by (nonlinear_arith);
    assert(c.x * (a.y * b.z) * w == a.y * b.z * c.x * w) by (nonlinear_arith);
    assert(c.x * (a.z * b.y) * w == a.z * b.y * c.x * w) by (nonlinear_arith);
    assert((c.y * (a.z * b.x - a.x * b.z)) * w == c.y * (a.z * b.x) * w - c.y * (a.x * b.z)
        * w) by (nonlinear_arith);
    assert(c.y * (a.z * b.x) * w == a.z * b.x * c.y * w) by (nonlinear_arith);
    assert(c.y * (a.x * b.z) * w == a.x * b.z * c.y * w) by (nonlinear_arith);
    assert((c.z * (a.x * b.y - a.y * b.x)) * w == c.z * (a.x * b.y) * w - c.z * (a.y * b.x)
        * w) by (nonlinear_arith);
    assert(c.z * (a.x * b.y) * w == a.x * b.y * c.z * w) by (nonlinear_arith);
    assert(c.z * (a.y * b.x) * w == a.y * b.x * c.z * w) by (nonlinear_arith);
    assert(a.x * d.y * b.z * z == a.x * b.z * d.y * z) by (nonlinear_arith);
    assert(a.x * d.y * c.z * y == a.x * c.z * d.y * y) by (nonlinear_arith);
    assert(a.x * c.y * b.z * w == a.x * b.z * c.y * w) by (nonlinear_arith);
    assert(b.x * a.y * c.z * w == a.y * b.x * c.z * w) by (nonlinear_arith);
    assert(c.x * a.y * d.z * y == a.y * c.x * d.z * y) by (nonlinear_arith);
    assert(d.x * a.y * b.z * z == a.y * b.z * d.x * z) by (nonlinear_arith);
    assert(d.x * a.y * c.z * y == a.y * c.z * d.x * y) by (nonlinear_arith);
    assert(c.x * a.y * b.z * w == a.y * b.z * c.x * w) by (nonlinear_arith);
    assert(b.x * a.y * d.z * z == a.y * b.x * d.z * z) by (nonlinear_arith);
    assert(b.x * c.y * a.z * w == a.z * b.x * c.y * w) by (nonlinear_arith);
    assert(c.x * d.y * a.z * y == a.z * c.x * d.y * y) by (nonlinear_arith);
    assert(d.x * b.y * a.z * z == a.z * b.y * d.x * z) by (nonlinear_arith);
    assert(d.x * c.y * a.z * y == a.z * c.y * d.x * y) by (nonlinear_arith);
    assert(c.x * b.y * a.z * w == a.z * b.y * c.x * w) by (nonlinear_arith);
    assert(b.x * d.y * a.z * z == a.z * b.x * d.y * z) by (nonlinear_arith);
    assert(c.x * d.y * b.z * x == b.z * c.x * d.y * x) by (nonlinear_arith);
    assert(d.x * b.y * c.z * x == b.y * c.z * d.x * x) by (nonlinear_arith);
    assert(d.x * c.y * b.z * x == b.z * c.y * d.x * x) by (nonlinear_arith);
    assert(c.x * b.y * d.z * x == b.y * c.x * d.z * x) by (nonlinear_arith);
    assert(b.x * d.y * c.z * x == b.x * c.z * d.y * x) by (nonlinear_arith);
}

/// The matrix times its block adjugate is the determinant times the identity.
pub(crate) proof fn lemma_block_adjugate_right(m: Mat4)
    ensures
        m.mul(block_adjugate(m)) == Mat4::identity().scale(m.det()),
{
    let (a, b, c, d) = (m.upper(0), m.upper(1), m.upper(2), m.upper(3));
    let (x, y, z, w) = (m.r3.x, m.r3.y, m.r3.z, m.r3.w);
    assert(a == Vec3::new(m.r0.x, m.r1.x, m.r2.x));
    assert(b == Vec3::new(m.r0.y, m.r1.y, m.r2.y));
    assert(c == Vec3::new(m.r0.z, m.r1.z, m.r2.z));
    assert(d == Vec3::new(m.r0.w, m.r1.w, m.r2.w));
    reveal(Vec3::cross);
    reveal(Vec3::dot);
    lemma_right_entry_00(a, b, c, d, x, y, z, w);
    lemma_right_entry_01(a, b, c, d, x, y, z, w);
    lemma_right_entry_02(a, b, c, d, x, y, z, w);
    lemma_right_entry_03(a, b, c, d, x, y, z, w);
    lemma_right_entry_10(a, b, c, d, x, y, z, w);
    lemma_right_entry_11(a, b, c, d, x, y, z, w);
    lemma_right_entry_12(a, b, c, d, x, y, z, w);
    lemma_right_entry_13(a, b, c, d, x, y, z, w);
    lemma_right_entry_20(a, b, c, d, x, y, z, w);
    lemma_right_entry_21(a, b, c, d, x, y, z, w);
    lemma_right_entry_22(a, b, c, d, x, y, z, w);
    lemma_right_entry_23(a, b, c, d, x, y, z, w);
    lemma_right_entry_30(a, b, c, d, x, y, z, w);
    lemma_right_entry_31(a, b, c, d, x, y, z, w);
    lemma_right_entry_32(a, b, c, d, x, y, z, w);
    lemma_right_entry_33(a, b, c, d, x, y, z, w);
}

} // verus!
