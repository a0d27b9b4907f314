//! Numbers, vectors and matrices as text.

use crate::linalg::{Mat3, Matrix, Vec3, Vector};
use vstd::prelude::*;

verus! {

/// The digit `d` as text, for `d` from 0 to 9.
pub open spec fn digit_text(d: int) -> Seq<char> {
    if d == 0 {
        "0"@
    } else if d == 1 {
        "1"@
    } else if d == 2 {
        "2"@
    } else if d == 3 {
        "3"@
    } else if d == 4 {
        "4"@
    } else if d == 5 {
        "5"@
    } else if d == 6 {
        "6"@
    } else if d == 7 {
        "7"@
    } else if d == 8 {
        "8"@
    } else {
        "9"@
    }
}

/// The decimal digits of the natural number `n`, without leading zeros.
pub open spec fn digits(n: nat) -> Seq<char>
    decreases n,
{
    if n < 10 {
        digit_text(n as int)
    } else {
        digits(n / 10) + digit_text((n % 10) as int)
    }
}

/// The integer `i` in decimal notation, with a minus sign if it is
/// negative.
pub open spec fn decimal(i: int) -> Seq<char> {
    if i < 0 {
        "-"@ + digits((-i) as nat)
    } else {
        digits(i as nat)
    }
}

/// The vector `v` as text: its components in square brackets.
pub open spec fn vector_text(v: Vec3) -> Seq<char> {
    "["@ + decimal(v.x) + ", "@ + decimal(v.y) + ", "@ + decimal(v.z) + "]"@
}

/// A row of a matrix as text: its entries between vertical bars.
pub open spec fn matrix_row_text(r: Vec3) -> Seq<char> {
    "|"@ + decimal(r.x) + ", "@ + decimal(r.y) + ", "@ + decimal(r.z) + "|"@
}

/// The matrix `m` as text: its three rows, separated by line feeds.
pub open spec fn matrix_text(m: Mat3) -> Seq<char> {
    matrix_row_text(m.r1) + "\n"@ + matrix_row_text(m.r2) + "\n"@ + matrix_row_text(m.r3)
}

/// Appending to a text that ends in `tail` lengthens that tail.
pub proof fn lemma_appended(start: Seq<char>, tail: Seq<char>, more: Seq<char>, all: Seq<char>)
    requires
        all == (start + tail) + more,
    ensures
        all == start + (tail + more),
{
    assert((start + tail) + more =~= start + (tail + more));
}

/// The digit `d` as text.
fn digit_str(d: u32) -> (s: &'static str)
    requires
        d < 10,
    ensures
        s@ == digit_text(d as int),
{
    match d {
        0 => "0",
        1 => "1",
        2 => "2",
        3 => "3",
        4 => "4",
        5 => "5",
        6 => "6",
        7 => "7",
        8 => "8",
        _ => "9",
    }
}

/// Appends the decimal digits of `n` to `out`.
fn push_digits(out: &mut String, n: u32)
    ensures
        final(out)@ == old(out)@ + digits(n as nat),
    decreases n,
{
    if n >= 10 {
        push_digits(out, n / 10);
        out.append(digit_str(n % 10));
        proof {
            lemma_appended(old(out)@, digits((n / 10) as nat), digit_text((n % 10) as int), out@);
        }
    } else {
        out.append(digit_str(n));
    }
}

/// Appends `i` in decimal notation to `out`.
pub fn push_decimal(out: &mut String, i: i32)
    ensures
        final(out)@ == old(out)@ + decimal(i as int),
{
    if i < 0 {
        out.append("-");
        push_digits(out, (-(i as i64)) as u32);
        proof {
            lemma_appended(old(out)@, "-"@, digits((-i) as nat), out@);
        }
    } else {
        push_digits(out, i as u32);
    }
}

/// Appends three numbers, separated by a comma and a space, to `out`.
fn push_three(out: &mut String, a: i32, b: i32, c: i32)
    ensures
        final(out)@ == old(out)@ + (decimal(a as int) + ", "@ + decimal(b as int) + ", "@ + decimal(
            c as int,
        )),
{
    let ghost start = out@;
    push_decimal(out, a);
    let ghost tail = decimal(a as int);
    out.append(", ");
    proof {
        lemma_appended(start, tail, ", "@, out@);
        tail = tail + ", "@;
    }
    push_decimal(out, b);
    proof {
        lemma_appended(start, tail, decimal(b as int), out@);
        tail = tail + decimal(b as int);
    }
    out.append(", ");
    proof {
        lemma_appended(start, tail, ", "@, out@);
        tail = tail + ", "@;
    }
    push_decimal(out, c);
    proof {
        lemma_appended(start, tail, decimal(c as int), out@);
    }
}

/// Appends row `r` (one-based) of `m` to `out`.
fn push_row(out: &mut String, m: &Matrix, r: usize)
    requires
        1 <= r <= 3,
    ensures
        final(out)@ == old(out)@ + matrix_row_text(m@.row(r as int)),
{
    let ghost start = out@;
    out.append("|");
    push_three(out, m.get(r, 1), m.get(r, 2), m.get(r, 3));
    let ghost row = m@.row(r as int);
    let ghost inner = decimal(row.x) + ", "@ + decimal(row.y) + ", "@ + decimal(row.z);
    proof {
        lemma_appended(start, "|"@, inner, out@);
        assert("|"@ + inner =~= "|"@ + decimal(row.x) + ", "@ + decimal(row.y) + ", "@ + decimal(row.z));
    }
    out.append("|");
    proof {
        lemma_appended(start, "|"@ + inner, "|"@, out@);
    }
}

impl Vector {
    /// The vector as text: `[x, y, z]`.
    pub fn to_text(&self) -> (text: String)
        ensures
            text@ == vector_text(self@),
    {
        let mut out = String::new();
        out.append("[");
        push_three(&mut out, self.x(), self.y(), self.z());
        out.append("]");
        assert(out@ =~= vector_text(self@));
        out
    }
}

impl Matrix {
    /// The matrix as text: three lines, each a row as `|a, b, c|`. The last
    /// line has no line feed.
    pub fn to_text(&self) -> (text: String)
        ensures
            text@ == matrix_text(self@),
    {
        let mut out = String::new();
        for r in 1..4usize
            invariant
                out@ == if r == 1 {
                    Seq::<char>::empty()
                } else if r == 2 {
                    matrix_row_text(self@.r1) + "\n"@
                } else if r == 3 {
                    matrix_row_text(self@.r1) + "\n"@ + matrix_row_text(self@.r2) + "\n"@
                } else {
                    matrix_text(self@)
                },
        {
            let ghost before = out@;
            push_row(&mut out, self, r);
            if r < 3 {
                out.append("\n");
            }
            proof {
                if r == 1 {
                    assert(out@ =~= matrix_row_text(self@.r1) + "\n"@);
                } else if r == 2 {
                    lemma_appended(before, matrix_row_text(self@.r2), "\n"@, out@);
                    assert(out@ =~= matrix_row_text(self@.r1) + "\n"@ + matrix_row_text(self@.r2) + "\n"@);
                }
            }
        }
        out
    }
}

} // verus!
