//! Fixed-point numbers. Every quantity that has a fractional part (seconds,
//! factors, degrees, percentages, frames per second) is held as an integer
//! count of millionths, which is the precision the engine's text carries.

use crate::text::{digits_of, padded_digits, push_number, push_padded};
use vstd::prelude::*;
use vstd::string::*;

verus! {

/// The absolute value of an integer.
pub open spec fn magnitude(v: int) -> nat {
    if v < 0 {
        (-v) as nat
    } else {
        v as nat
    }
}

/// The integer nearest to `n / d` for `n >= 0` and `d > 0`; an exact half
/// goes up.
pub open spec fn nearest_nat(n: nat, d: nat) -> nat {
    if 2 * (n % d) >= d {
        n / d + 1
    } else {
        n / d
    }
}

/// The integer nearest to `n / d` for `d > 0`; an exact half goes away from
/// zero.
pub open spec fn nearest(n: int, d: int) -> int {
    if n < 0 {
        -(nearest_nat(magnitude(n), d as nat) as int)
    } else {
        nearest_nat(n as nat, d as nat) as int
    }
}

/// The least integer that is not below `n / d`, for `d > 0`.
pub open spec fn ceiling(n: int, d: int) -> int {
    if n % d == 0 {
        n / d
    } else {
        n / d + 1
    }
}

/// `v` limited to the range that 64 signed bits hold.
pub open spec fn clamp_i64(v: int) -> int {
    if v < i64::MIN {
        i64::MIN as int
    } else if v > i64::MAX {
        i64::MAX as int
    } else {
        v
    }
}

/// The whole part of a count of millionths as an unsigned 32-bit number:
/// the fraction is dropped, a negative count gives zero, and a count beyond
/// the range gives the largest number.
pub open spec fn whole_u32(v: int) -> int {
    if v <= 0 {
        0
    } else if v / 1_000_000 > u32::MAX {
        u32::MAX as int
    } else {
        v / 1_000_000
    }
}

/// A non-negative count of millionths written with exactly six decimals.
pub open spec fn unsigned_six(m: nat) -> Seq<char> {
    digits_of(m / 1_000_000) + "."@ + padded_digits(m % 1_000_000, 6)
}

/// A count of millionths written with exactly six decimals, as in `-1.500000`.
pub open spec fn six_decimals(v: int) -> Seq<char> {
    if v < 0 {
        "-"@ + unsigned_six(magnitude(v))
    } else {
        unsigned_six(v as nat)
    }
}

/// The last `width` decimal digits of `f` without the zeros at their end.
pub open spec fn fraction_digits(f: nat, width: nat) -> Seq<char>
    decreases width,
{
    if width == 0 {
        Seq::<char>::empty()
    } else if f % 10 == 0 {
        fraction_digits(f / 10, (width - 1) as nat)
    } else {
        padded_digits(f, width)
    }
}

/// A non-negative count of millionths written with as few decimals as it
/// needs, and without a point where it is whole.
pub open spec fn unsigned_shortest(m: nat) -> Seq<char> {
    if m % 1_000_000 == 0 {
        digits_of(m / 1_000_000)
    } else {
        digits_of(m / 1_000_000) + "."@ + fraction_digits(m % 1_000_000, 6)
    }
}

/// A count of millionths written with as few decimals as it needs, as in
/// `30` or `29.97`.
pub open spec fn shortest(v: int) -> Seq<char> {
    if v < 0 {
        "-"@ + unsigned_shortest(magnitude(v))
    } else {
        unsigned_shortest(v as nat)
    }
}

/// The absolute value of `v`.
pub fn magnitude_of(v: i128) -> (m: u128)
    ensures
        m == magnitude(v as int),
{
    if v < 0 {
        if v == i128::MIN {
            0x8000_0000_0000_0000_0000_0000_0000_0000u128
        } else {
            (-v) as u128
        }
    } else {
        v as u128
    }
}

/// Divides with rounding to the nearest integer.
pub fn nearest_quotient(n: i128, d: i128) -> (q: i128)
    requires
        d > 0,
        n > i128::MIN,
    ensures
        q == nearest(n as int, d as int),
{
    let m: u128 = magnitude_of(n);
    let du: u128 = d as u128;
    let whole: u128 = m / du;
    let rest: u128 = m % du;
    let up: bool = rest >= du - rest;
    assert(m == du * whole + rest && rest < du && whole <= m) by (nonlinear_arith)
        requires
            whole == m / du,
            rest == m % du,
            du > 0,
    ;
    assert(up ==> whole + 1 <= m) by (nonlinear_arith)
        requires
            m == du * whole + rest,
            up ==> rest >= 1,
            du >= 1,
            whole >= 0,
    ;
    let rounded: u128 = if up {
        whole + 1
    } else {
        whole
    };
    if n < 0 {
        -(rounded as i128)
    } else {
        rounded as i128
    }
}

/// Divides with rounding up.
pub fn ceiling_quotient(n: i128, d: i128) -> (q: i128)
    requires
        d > 0,
        n > i128::MIN,
    ensures
        q == ceiling(n as int, d as int),
{
    let m: u128 = magnitude_of(n);
    let du: u128 = d as u128;
    let whole: u128 = m / du;
    let rest: u128 = m % du;
    assert(m == du * whole + rest && rest < du && whole <= m) by (nonlinear_arith)
        requires
            whole == m / du,
            rest == m % du,
            du > 0,
    ;
    if n < 0 {
        proof {
            lemma_negated_division(m as int, d as int);
        }
        -(whole as i128)
    } else if rest == 0 {
        whole as i128
    } else {
        assert(whole + 1 <= m) by (nonlinear_arith)
            requires
                m == du * whole + rest,
                rest >= 1,
                du >= 1,
                whole >= 0,
        ;
        (whole + 1) as i128
    }
}

/// For `m >= 0`, the ceiling of `-m / d` is the negated floor of `m / d`.
pub proof fn lemma_negated_division(m: int, d: int)
    requires
        m >= 0,
        d > 0,
    ensures
        ceiling(-m, d) == -(m / d),
{
    let q = m / d;
    let r = m % d;
    assert(m == d * q + r && 0 <= r < d) by (nonlinear_arith)
        requires
            q == m / d,
            r == m % d,
            d > 0,
    ;
    if r == 0 {
        assert((-m) / d == -q && (-m) % d == 0) by (nonlinear_arith)
            requires
                m == d * q,
                d > 0,
        ;
    } else {
        assert((-m) / d == -q - 1 && (-m) % d == d - r) by (nonlinear_arith)
            requires
                m == d * q + r,
                0 < r < d,
        ;
    }
}

/// Limits a wide signed number to 64 bits.
pub fn clamp_to_i64(v: i128) -> (r: i64)
    ensures
        r == clamp_i64(v as int),
{
    if v < i64::MIN as i128 {
        i64::MIN
    } else if v > i64::MAX as i128 {
        i64::MAX
    } else {
        v as i64
    }
}

/// The whole part of a count of millionths, limited to 32 unsigned bits.
pub fn whole_of(v: i128) -> (r: u32)
    ensures
        r == whole_u32(v as int),
{
    if v <= 0 {
        0
    } else {
        let w: i128 = v / 1_000_000;
        if w > u32::MAX as i128 {
            u32::MAX
        } else {
            w as u32
        }
    }
}

/// Appends a count of millionths to `out`, with exactly six decimals.
pub fn push_six_decimals(out: &mut String, v: i128)
    ensures
        final(out)@ == old(out)@ + six_decimals(v as int),
{
    let m: u128 = magnitude_of(v);
    if v < 0 {
        out.append("-");
    }
    push_number(out, m / 1_000_000);
    out.append(".");
    push_padded(out, m % 1_000_000, 6);
    assert(out@ =~= old(out)@ + six_decimals(v as int));
}

/// Appends the last `width` digits of `f` to `out` without the zeros at
/// their end.
pub fn push_fraction(out: &mut String, f: u128, width: u8)
    ensures
        final(out)@ == old(out)@ + fraction_digits(f as nat, width as nat),
    decreases width,
{
    if width == 0 {
        assert(out@ =~= old(out)@ + fraction_digits(f as nat, width as nat));
    } else if f % 10 == 0 {
        push_fraction(out, f / 10, width - 1);
    } else {
        push_padded(out, f, width);
    }
}

/// Appends a count of millionths to `out`, with as few decimals as it needs.
pub fn push_shortest(out: &mut String, v: i128)
    ensures
        final(out)@ == old(out)@ + shortest(v as int),
{
    let m: u128 = magnitude_of(v);
    if v < 0 {
        out.append("-");
    }
    push_number(out, m / 1_000_000);
    if m % 1_000_000 != 0 {
        out.append(".");
        push_fraction(out, m % 1_000_000, 6);
    }
    assert(out@ =~= old(out)@ + shortest(v as int));
}

} // verus!
