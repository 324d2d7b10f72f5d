//! The text form of matrices: rows in order, each row's entries in decimal,
//! as in `[[1, 2, 3], [4, 5, 6], [7, 8, 9]]`.

use vstd::prelude::*;
use crate::algebra::{Vec3, Vec4, Mat3, Mat4};
use crate::matrix::{Matrix3D, Matrix4D};
use crate::vector::{Vector3D, Vector4D};

verus! {

/// The character of the decimal digit `d`.
pub open spec fn digit_char(d: int) -> char {
    if d == 0 { '0' } else if d == 1 { '1' } else if d == 2 { '2' } else if d == 3 { '3' }
    else if d == 4 { '4' } else if d == 5 { '5' } else if d == 6 { '6' } else if d == 7 { '7' }
    else if d == 8 { '8' } else { '9' }
}

/// The decimal digits of `n`, without leading zeros.
pub open spec fn decimal_nat(n: nat) -> Seq<char>
    decreases n,
{
    if n < 10 {
        seq![digit_char(n as int)]
    } else {
        decimal_nat(n / 10) + seq![digit_char((n % 10) as int)]
    }
}

/// The decimal form of `v`, with a leading `-` when it is negative.
pub open spec fn decimal(v: int) -> Seq<char> {
    if v < 0 {
        seq!['-'] + decimal_nat((-v) as nat)
    } else {
        decimal_nat(v as nat)
    }
}

/// The separator between entries and between rows.
pub open spec fn separator() -> Seq<char> {
    seq![',', ' ']
}

/// `[x, y, z]`.
pub open spec fn vec3_text(v: Vec3) -> Seq<char> {
    seq!['['] + decimal(v.x) + separator() + decimal(v.y) + separator() + decimal(v.z) + seq![']']
}

/// `[x, y, z, w]`.
pub open spec fn vec4_text(v: Vec4) -> Seq<char> {
    seq!['['] + decimal(v.x) + separator() + decimal(v.y) + separator() + decimal(v.z)
        + separator() + decimal(v.w) + seq![']']
}

/// `[[..], [..], [..]]`, rows in order.
pub open spec fn mat3_text(m: Mat3) -> Seq<char> {
    seq!['['] + vec3_text(m.r0) + separator() + vec3_text(m.r1) + separator() + vec3_text(m.r2)
        + seq![']']
}

/// `[[..], [..], [..], [..]]`, rows in order.
pub open spec fn mat4_text(m: Mat4) -> Seq<char> {
    seq!['['] + vec4_text(m.r0) + separator() + vec4_text(m.r1) + separator() + vec4_text(m.r2)
        + separator() + vec4_text(m.r3) + seq![']']
}

fn push_digit(s: &mut String, d: u64)
    requires
        d < 10,
    ensures
        final(s)@ == old(s)@ + seq![digit_char(d as int)],
{
    if d == 0 {
        proof {
            reveal_strlit("0");
        }
        s.append("0");
    } else if d == 1 {
        proof {
            reveal_strlit("1");
        }
        s.append("1");
    } else if d == 2 {
        proof {
            reveal_strlit("2");
        }
        s.append("2");
    } else if d == 3 {
        proof {
            reveal_strlit("3");
        }
        s.append("3");
    } else if d == 4 {
        proof {
            reveal_strlit("4");
        }
        s.append("4");
    } else if d == 5 {
        proof {
            reveal_strlit("5");
        }
        s.append("5");
    } else if d == 6 {
        proof {
            reveal_strlit("6");
        }
        s.append("6");
    } else if d == 7 {
        proof {
            reveal_strlit("7");
        }
        s.append("7");
    } else if d == 8 {
        proof {
            reveal_strlit("8");
        }
        s.append("8");
    } else {
        proof {
            reveal_strlit("9");
        }
        s.append("9");
    }
}

fn push_nat(s: &mut String, n: u64)
    ensures
        final(s)@ == old(s)@ + decimal_nat(n as nat),
    decreases n,
{
    if n >= 10 {
        push_nat(s, n / 10);
    }
    push_digit(s, n % 10);
    proof {
        if n >= 10 {
            assert(final(s)@ =~= old(s)@ + decimal_nat(n as nat));
        }
    }
}

fn push_decimal(s: &mut String, v: i64)
    ensures
        final(s)@ == old(s)@ + decimal(v as int),
{
    if v < 0 {
        proof {
            reveal_strlit("-");
        }
        s.append("-");
        let magnitude = (-(v as i128)) as u64;
        push_nat(s, magnitude);
        proof {
            assert(final(s)@ =~= old(s)@ + decimal(v as int));
        }
    } else {
        push_nat(s, v as u64);
    }
}

fn push_separator(s: &mut String)
    ensures
        final(s)@ == old(s)@ + separator(),
{
    proof {
        reveal_strlit(", ");
    }
    s.append(", ");
    proof {
        assert(final(s)@ =~= old(s)@ + separator());
    }
}

fn push_bracket(s: &mut String, open: bool)
    ensures
        final(s)@ == old(s)@ + seq![if open { '[' } else { ']' }],
{
    if open {
        proof {
            reveal_strlit("[");
        }
        s.append("[");
    } else {
        proof {
            reveal_strlit("]");
        }
        s.append("]");
    }
}

fn push_vec3(s: &mut String, v: &Vector3D)
    ensures
        final(s)@ == old(s)@ + vec3_text(v@),
{
    push_bracket(s, true);
    push_decimal(s, v.x);
    push_separator(s);
    push_decimal(s, v.y);
    push_separator(s);
    push_decimal(s, v.z);
    push_bracket(s, false);
    proof {
        assert(final(s)@ =~= old(s)@ + vec3_text(v@));
    }
}

fn push_vec4(s: &mut String, v: &Vector4D)
    ensures
        final(s)@ == old(s)@ + vec4_text(v@),
{
    push_bracket(s, true);
    push_decimal(s, v.x);
    push_separator(s);
    push_decimal(s, v.y);
    push_separator(s);
    push_decimal(s, v.z);
    push_separator(s);
    push_decimal(s, v.w);
    push_bracket(s, false);
    proof {
        assert(final(s)@ =~= old(s)@ + vec4_text(v@));
    }
}

impl Matrix3D {
    /// The text form, e.g. `[[1, 2, 3], [4, 5, 6], [7, 8, 9]]`.
    pub fn to_string(&self) -> (r: String)
        ensures
            r@ == mat3_text(self@),
    {
        let mut s = String::new();
        push_bracket(&mut s, true);
        push_vec3(&mut s, &self.at(0));
        push_separator(&mut s);
        push_vec3(&mut s, &self.at(1));
        push_separator(&mut s);
        push_vec3(&mut s, &self.at(2));
        push_bracket(&mut s, false);
        proof {
            assert(s@ =~= mat3_text(self@));
        }
        s
    }
}

impl Matrix4D {
    /// The text form, e.g. `[[1, 0, 0, 0], [0, 1, 0, 0], [0, 0, 1, 0], [0, 0, 0, 1]]`.
    pub fn to_string(&self) -> (r: String)
        ensures
            r@ == mat4_text(self@),
    {
        let mut s = String::new();
        push_bracket(&mut s, true);
        push_vec4(&mut s, &self.at(0));
        push_separator(&mut s);
        push_vec4(&mut s, &self.at(1));
        push_separator(&mut s);
        push_vec4(&mut s, &self.at(2));
        push_separator(&mut s);
        push_vec4(&mut s, &self.at(3));
        push_bracket(&mut s, false);
        proof {
            assert(s@ =~= mat4_text(self@));
        }
        s
    }
}

} // verus!
