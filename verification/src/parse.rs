//! Reading numbers out of text: white space at the ends, unsigned integers,
//! and decimal numbers taken as millionths.

use vstd::prelude::*;

verus! {

/// Whether the char is white space.
pub open spec fn is_space(c: char) -> bool {
    let u = c as int;
    ||| 0x09 <= u <= 0x0D
    ||| u == 0x20
    ||| u == 0x85
    ||| u == 0xA0
    ||| u == 0x1680
    ||| 0x2000 <= u <= 0x200A
    ||| u == 0x2028
    ||| u == 0x2029
    ||| u == 0x202F
    ||| u == 0x205F
    ||| u == 0x3000
}

/// The text without the white space at its start.
pub open spec fn without_leading_space(s: Seq<char>) -> Seq<char>
    decreases s.len(),
{
    if s.len() > 0 && is_space(s.first()) {
        without_leading_space(s.drop_first())
    } else {
        s
    }
}

/// The text without the white space at its end.
pub open spec fn without_trailing_space(s: Seq<char>) -> Seq<char>
    decreases s.len(),
{
    if s.len() > 0 && is_space(s.last()) {
        without_trailing_space(s.drop_last())
    } else {
        s
    }
}

/// The text without the white space at either end.
pub open spec fn trimmed(s: Seq<char>) -> Seq<char> {
    without_trailing_space(without_leading_space(s))
}

/// Whether the char is one of the ten decimal digits.
pub open spec fn is_digit(c: char) -> bool {
    0x30 <= c as int <= 0x39
}

/// The value of a decimal digit.
pub open spec fn digit_value(c: char) -> nat {
    (c as int - 0x30) as nat
}

/// Whether the text holds decimal digits only.
pub open spec fn all_digits(s: Seq<char>) -> bool {
    forall|i: int| 0 <= i < s.len() ==> is_digit(#[trigger] s[i])
}

/// The number that a run of decimal digits writes; the empty run writes zero.
pub open spec fn number_of(s: Seq<char>) -> nat
    decreases s.len(),
{
    if s.len() == 0 {
        0
    } else {
        number_of(s.drop_last()) * 10 + digit_value(s.last())
    }
}

/// The unsigned integer that the text writes: an optional plus sign, then
/// one or more decimal digits and nothing else.
pub open spec fn unsigned_of(s: Seq<char>) -> Option<nat> {
    let body = if s.len() > 0 && s.first() == '+' {
        s.drop_first()
    } else {
        s
    };
    if body.len() > 0 && all_digits(body) {
        Some(number_of(body))
    } else {
        None
    }
}

/// The unsigned integer that the text writes, where 64 bits hold it.
pub open spec fn u64_of(s: Seq<char>) -> Option<u64> {
    match unsigned_of(s) {
        Some(n) => if n <= u64::MAX {
            Some(n as u64)
        } else {
            None
        },
        None => None,
    }
}

/// The unsigned integer that the text writes, where 32 bits hold it.
pub open spec fn u32_of(s: Seq<char>) -> Option<u32> {
    match unsigned_of(s) {
        Some(n) => if n <= u32::MAX {
            Some(n as u32)
        } else {
            None
        },
        None => None,
    }
}

/// Whether the char is white space.
pub fn space(c: char) -> (r: bool)
    ensures
        r == is_space(c),
{
    let u: u32 = c as u32;
    (0x09 <= u && u <= 0x0D) || u == 0x20 || u == 0x85 || u == 0xA0 || u == 0x1680 || (0x2000 <= u
        && u <= 0x200A) || u == 0x2028 || u == 0x2029 || u == 0x202F || u == 0x205F || u == 0x3000
}

/// The value of the char as a decimal digit, if it is one.
pub fn digit(c: char) -> (r: Option<u8>)
    ensures
        r is Some == is_digit(c),
        r matches Some(d) ==> d == digit_value(c) && d < 10,
{
    let u: u32 = c as u32;
    if 0x30 <= u && u <= 0x39 {
        Some((u - 0x30) as u8)
    } else {
        None
    }
}

/// Finds the part of `chars[from..to]` that is left when the white space
/// at both ends is taken away.
pub fn trim_range(chars: &Vec<char>, from: usize, to: usize) -> (r: (usize, usize))
    requires
        from <= to <= chars.len(),
    ensures
        from <= r.0 <= r.1 <= to,
        chars@.subrange(r.0 as int, r.1 as int) == trimmed(chars@.subrange(from as int, to as int)),
{
    let mut a: usize = from;
    while a < to && space(chars[a])
        invariant
            from <= a <= to <= chars.len(),
            without_leading_space(chars@.subrange(from as int, to as int))
                == without_leading_space(chars@.subrange(a as int, to as int)),
        decreases to - a,
    {
        assert(chars@.subrange(a as int, to as int).drop_first() =~= chars@.subrange(
            a + 1,
            to as int,
        ));
        a += 1;
    }
    let mut b: usize = to;
    while a < b && space(chars[b - 1])
        invariant
            from <= a <= b <= to <= chars.len(),
            without_trailing_space(chars@.subrange(a as int, to as int)) == without_trailing_space(
                chars@.subrange(a as int, b as int),
            ),
        decreases b - a,
    {
        assert(chars@.subrange(a as int, b as int).drop_last() =~= chars@.subrange(
            a as int,
            b - 1,
        ));
        b -= 1;
    }
    (a, b)
}

/// What a run of chars holds when it is read as decimal digits.
#[derive(Debug, Clone, Copy, PartialEq, Eq, Structural)]
pub enum DigitRun {
    /// Some char is no digit.
    NotDigits,
    /// All chars are digits, and they write more than the limit.
    TooLarge,
    /// All chars are digits, and they write this number.
    Value(u128),
}

/// Reads `chars[from..to]` as a run of decimal digits that writes a number
/// up to `limit`.
pub fn read_digits(chars: &Vec<char>, from: usize, to: usize, limit: u64) -> (r: DigitRun)
    requires
        from <= to <= chars.len(),
    ensures
        r is NotDigits <==> !all_digits(chars@.subrange(from as int, to as int)),
        r is TooLarge ==> number_of(chars@.subrange(from as int, to as int)) > limit,
        r matches DigitRun::Value(v) ==> v == number_of(chars@.subrange(from as int, to as int))
            && v <= limit,
{
    let ghost run = chars@.subrange(from as int, to as int);
    let mut value: u128 = 0;
    let mut over: bool = false;
    let mut i: usize = from;
    assert(run.take(0) =~= Seq::<char>::empty());
    while i < to
        invariant
            from <= i <= to <= chars.len(),
            run == chars@.subrange(from as int, to as int),
            all_digits(run.take(i - from)),
            !over ==> value == number_of(run.take(i - from)) && value <= limit,
            over ==> number_of(run.take(i - from)) > limit,
        decreases to - i,
    {
        let ghost seen = run.take(i - from);
        let ghost next = run.take(i + 1 - from);
        assert(next.drop_last() =~= seen);
        assert(next.last() == chars@[i as int]);
        match digit(chars[i]) {
            None => {
                assert(!is_digit(run[i - from]));
                return DigitRun::NotDigits;
            },
            Some(d) => {
                if !over {
                    if value * 10 + d as u128 > limit as u128 {
                        over = true;
                    } else {
                        value = value * 10 + d as u128;
                    }
                }
            },
        }
        i += 1;
    }
    assert(run.take(i - from) =~= run);
    if over {
        DigitRun::TooLarge
    } else {
        DigitRun::Value(value)
    }
}

/// Reads `chars[from..to]` as an unsigned integer of 64 bits.
pub fn parse_u64(chars: &Vec<char>, from: usize, to: usize) -> (r: Option<u64>)
    requires
        from <= to <= chars.len(),
    ensures
        r == u64_of(chars@.subrange(from as int, to as int)),
{
    let ghost whole = chars@.subrange(from as int, to as int);
    let start: usize = if from < to && chars[from] == '+' {
        from + 1
    } else {
        from
    };
    assert(chars@.subrange(start as int, to as int) =~= if whole.len() > 0 && whole.first() == '+' {
        whole.drop_first()
    } else {
        whole
    });
    if start == to {
        return None;
    }
    match read_digits(chars, start, to, u64::MAX) {
        DigitRun::Value(v) => Some(v as u64),
        _ => None,
    }
}

/// Reads `chars[from..to]` as an unsigned integer of 32 bits.
pub fn parse_u32(chars: &Vec<char>, from: usize, to: usize) -> (r: Option<u32>)
    requires
        from <= to <= chars.len(),
    ensures
        r == u32_of(chars@.subrange(from as int, to as int)),
{
    match parse_u64(chars, from, to) {
        Some(n) => if n <= u32::MAX as u64 {
            Some(n as u32)
        } else {
            None
        },
        None => None,
    }
}

/// Where the char first stands in the text, or the text's length where
/// the text does not hold it.
pub open spec fn position_of(s: Seq<char>, c: char) -> int
    decreases s.len(),
{
    if s.len() == 0 || s.first() == c {
        0
    } else {
        1 + position_of(s.drop_first(), c)
    }
}

/// Where the first point stands in the text, or the text's length where it
/// has none.
pub open spec fn first_point(s: Seq<char>) -> int {
    position_of(s, '.')
}

/// How many millionths one unit of a fraction of `count` digits is.
pub open spec fn scale_of(count: int) -> nat {
    if count <= 0 {
        1_000_000
    } else if count == 1 {
        100_000
    } else if count == 2 {
        10_000
    } else if count == 3 {
        1_000
    } else if count == 4 {
        100
    } else if count == 5 {
        10
    } else {
        1
    }
}

/// The millionths that the digits behind a point write; digits beyond the
/// sixth are dropped.
pub open spec fn fraction_micros(frac: Seq<char>) -> nat {
    let count = if frac.len() < 6 {
        frac.len() as int
    } else {
        6
    };
    number_of(frac.take(count)) * scale_of(count)
}

/// The text without its sign, where it begins with one.
pub open spec fn unsigned_part(s: Seq<char>) -> Seq<char> {
    if s.len() > 0 && (s.first() == '-' || s.first() == '+') {
        s.drop_first()
    } else {
        s
    }
}

/// The text between the sign and the first point.
pub open spec fn whole_part(s: Seq<char>) -> Seq<char> {
    unsigned_part(s).take(first_point(unsigned_part(s)))
}

/// The text behind the first point; empty where there is no point.
pub open spec fn fraction_part(s: Seq<char>) -> Seq<char> {
    let body = unsigned_part(s);
    if first_point(body) < body.len() {
        body.skip(first_point(body) + 1)
    } else {
        Seq::<char>::empty()
    }
}

/// The decimal number that the text writes, in millionths: an optional
/// sign, then digits, a point and digits, where the digits on one side of
/// the point may be missing and the point may be missing before no digits.
/// There is no exponent and no white space.
pub open spec fn decimal_of(s: Seq<char>) -> Option<int> {
    let whole = whole_part(s);
    let frac = fraction_part(s);
    if all_digits(whole) && all_digits(frac) && whole.len() + frac.len() > 0 {
        let m = number_of(whole) * 1_000_000 + fraction_micros(frac);
        if s.first() == '-' {
            Some(-m)
        } else {
            Some(m as int)
        }
    } else {
        None
    }
}

/// The decimal number that the text writes, in millionths, where 64 signed
/// bits hold it.
pub open spec fn micros_of(s: Seq<char>) -> Option<i64> {
    match decimal_of(s) {
        Some(v) => if i64::MIN <= v <= i64::MAX {
            Some(v as i64)
        } else {
            None
        },
        None => None,
    }
}

/// Finds where `c` first stands in `chars[from..to]`; returns `to` where
/// it does not stand there.
pub fn find_char(chars: &Vec<char>, from: usize, to: usize, c: char) -> (r: usize)
    requires
        from <= to <= chars.len(),
    ensures
        from <= r <= to,
        r - from == position_of(chars@.subrange(from as int, to as int), c),
{
    let ghost text = chars@.subrange(from as int, to as int);
    let mut p: usize = from;
    assert(text.skip(0) =~= text);
    while p < to && chars[p] != c
        invariant
            from <= p <= to <= chars.len(),
            text == chars@.subrange(from as int, to as int),
            position_of(text, c) == (p - from) + position_of(text.skip(p - from), c),
        decreases to - p,
    {
        assert(text.skip(p - from).drop_first() =~= text.skip(p + 1 - from));
        p += 1;
    }
    assert(position_of(text.skip(p - from), c) == 0) by {
        if p < to {
            assert(text.skip(p - from).first() == chars@[p as int]);
        }
    }
    p
}

/// Up to six digits write less than one whole in millionths.
pub proof fn fraction_below_one(s: Seq<char>)
    requires
        all_digits(s),
        s.len() <= 6,
    ensures
        number_of(s) * scale_of(s.len() as int) + scale_of(s.len() as int) <= 1_000_000,
    decreases s.len(),
{
    if s.len() > 0 {
        let t = s.drop_last();
        assert(all_digits(t)) by {
            assert forall|i: int| 0 <= i < t.len() implies is_digit(#[trigger] t[i]) by {
                assert(t[i] == s[i]);
            }
        }
        fraction_below_one(t);
        let n = number_of(t);
        let d = digit_value(s.last());
        let small = scale_of(s.len() as int);
        let big = scale_of(t.len() as int);
        assert(is_digit(s[s.len() - 1]));
        assert(big == 10 * small);
        assert(d <= 9);
        assert((n * 10 + d) * small + small <= n * big + big) by (nonlinear_arith)
            requires
                big == 10 * small,
                d <= 9,
        ;
    }
}

/// Finds the parts of the decimal number in `chars[from..to]`: where the
/// whole part starts, where it ends, and where the fraction starts.
fn locate_parts(chars: &Vec<char>, from: usize, to: usize) -> (r: (usize, usize, usize))
    requires
        from <= to <= chars.len(),
    ensures
        from <= r.0 <= r.1 <= r.2 <= to,
        chars@.subrange(r.0 as int, r.1 as int) == whole_part(
            chars@.subrange(from as int, to as int),
        ),
        chars@.subrange(r.2 as int, to as int) == fraction_part(
            chars@.subrange(from as int, to as int),
        ),
{
    let ghost text = chars@.subrange(from as int, to as int);
    let signed: bool = from < to && (chars[from] == '-' || chars[from] == '+');
    let start: usize = if signed {
        from + 1
    } else {
        from
    };
    let ghost body = chars@.subrange(start as int, to as int);
    assert(body =~= unsigned_part(text));
    let p: usize = find_char(chars, start, to, '.');
    let tail: usize = if p < to {
        p + 1
    } else {
        to
    };
    assert(chars@.subrange(start as int, p as int) =~= whole_part(text));
    assert(chars@.subrange(tail as int, to as int) =~= fraction_part(text));
    (start, p, tail)
}

/// Reads `chars[from..to]` as the digits behind a point, in millionths.
fn read_fraction(chars: &Vec<char>, from: usize, to: usize) -> (r: Option<u64>)
    requires
        from <= to <= chars.len(),
    ensures
        r is Some <==> all_digits(chars@.subrange(from as int, to as int)),
        r matches Some(v) ==> v == fraction_micros(chars@.subrange(from as int, to as int)) && v
            < 1_000_000,
{
    let ghost frac = chars@.subrange(from as int, to as int);
    if read_digits(chars, from, to, 0) == DigitRun::NotDigits {
        return None;
    }
    let count: usize = if to - from < 6 {
        to - from
    } else {
        6
    };
    let ghost first = frac.take(count as int);
    assert(chars@.subrange(from as int, from + count) =~= first);
    proof {
        assert forall|i: int| 0 <= i < count implies is_digit(#[trigger] first[i]) by {
            assert(first[i] == frac[i]);
        }
        fraction_below_one(first);
    }
    let scale: u64 = if count == 0 {
        1_000_000
    } else if count == 1 {
        100_000
    } else if count == 2 {
        10_000
    } else if count == 3 {
        1_000
    } else if count == 4 {
        100
    } else if count == 5 {
        10
    } else {
        1
    };
    assert(number_of(first) <= 999_999) by (nonlinear_arith)
        requires
            number_of(first) * scale + scale <= 1_000_000,
            scale >= 1,
    ;
    match read_digits(chars, from, from + count, 999_999) {
        DigitRun::Value(v) => {
            assert(v * scale < 1_000_000) by (nonlinear_arith)
                requires
                    v * scale + scale <= 1_000_000,
                    scale >= 1,
            ;
            Some(v as u64 * scale)
        },
        _ => None,
    }
}

/// Reads `chars[from..to]` as a decimal number in millionths.
pub fn parse_decimal(chars: &Vec<char>, from: usize, to: usize) -> (r: Option<i64>)
    requires
        from <= to <= chars.len(),
    ensures
        r == micros_of(chars@.subrange(from as int, to as int)),
{
    let ghost text = chars@.subrange(from as int, to as int);
    let negative: bool = from < to && chars[from] == '-';
    let (start, p, tail) = locate_parts(chars, from, to);
    if p - start + (to - tail) == 0 {
        return None;
    }
    // The largest whole part whose millionths 64 signed bits can hold.
    let whole = read_digits(chars, start, p, 9_223_372_036_854);
    let part = read_fraction(chars, tail, to);
    match (whole, part) {
        (DigitRun::Value(w), Some(f)) => {
            let m: u128 = w * 1_000_000 + f as u128;
            if negative {
                if m > 0x8000_0000_0000_0000u128 {
                    None
                } else {
                    Some((-(m as i128)) as i64)
                }
            } else if m > i64::MAX as u128 {
                None
            } else {
                Some(m as i64)
            }
        },
        _ => None,
    }
}

} // verus!
