//! Decimal rendering of the numeric sensor values that appear in payloads.
//!
//! Counts and indices are rendered as plain decimal integers; physical
//! quantities are carried as tenths of a unit and rendered with at most one
//! fractional digit, so that a whole number of units prints without a
//! fractional part.

use vstd::prelude::*;

verus! {

/// The decimal digit character for `d`.
pub open spec fn digit_char(d: int) -> char {
    if d == 0 { '0' }
    else if d == 1 { '1' }
    else if d == 2 { '2' }
    else if d == 3 { '3' }
    else if d == 4 { '4' }
    else if d == 5 { '5' }
    else if d == 6 { '6' }
    else if d == 7 { '7' }
    else if d == 8 { '8' }
    else { '9' }
}

/// The decimal digit string of a non-negative integer, without sign or
/// leading zeros (`0` renders as "0").
pub open spec fn dec_digits(n: int) -> Seq<char>
    recommends
        n >= 0,
    decreases n,
{
    if n <= 9 {
        seq![digit_char(n)]
    } else {
        dec_digits(n / 10).push(digit_char(n % 10))
    }
}

/// Rendering of a quantity given in tenths of a unit: the whole part in
/// decimal, then one fractional digit only when it is non-zero.
pub open spec fn tenths_chars(t: int) -> Seq<char> {
    if t < 0 {
        seq!['-'] + tenths_magnitude_chars(-t)
    } else {
        tenths_magnitude_chars(t)
    }
}

/// Rendering of a non-negative number of tenths.
pub open spec fn tenths_magnitude_chars(n: int) -> Seq<char>
    recommends
        n >= 0,
{
    if n % 10 == 0 {
        dec_digits(n / 10)
    } else {
        dec_digits(n / 10) + seq!['.', digit_char(n % 10)]
    }
}

/// A physical quantity held as a whole number of tenths of its unit
/// (22.5 degrees is 225 tenths).  This is the native resolution of the
/// climate sensors and keeps payload rendering exact.
#[derive(Clone, Copy, PartialEq, Eq, Structural, Debug)]
pub struct Deci {
    pub tenths: i32,
}

impl Deci {
    /// The quantity of `tenths` tenths of a unit.
    pub fn from_tenths(tenths: i32) -> (r: Deci)
        ensures
            r.tenths == tenths,
    {
        Deci { tenths }
    }

    /// The view of this quantity in payload text.
    pub open spec fn spec_chars(self) -> Seq<char> {
        tenths_chars(self.tenths as int)
    }
}

/// The digit string for a single decimal digit.
fn digit_str(d: u32) -> (r: &'static str)
    requires
        d <= 9,
    ensures
        r@ == seq![digit_char(d as int)],
{
    proof {
        reveal_strlit("0");
        reveal_strlit("1");
        reveal_strlit("2");
        reveal_strlit("3");
        reveal_strlit("4");
        reveal_strlit("5");
        reveal_strlit("6");
        reveal_strlit("7");
        reveal_strlit("8");
        reveal_strlit("9");
    }
    let r: &'static str = match d {
        0 => "0",
        1 => "1",
        2 => "2",
        3 => "3",
        4 => "4",
        5 => "5",
        6 => "6",
        7 => "7",
        8 => "8",
        _ => "9",
    };
    proof {
        assert(r@ =~= seq![digit_char(d as int)]);
    }
    r
}

/// Renders `n` in decimal.
pub fn format_u32(n: u32) -> (r: String)
    ensures
        r@ == dec_digits(n as int),
    decreases n,
{
    if n <= 9 {
        String::from_str(digit_str(n))
    } else {
        let mut s = format_u32(n / 10);
        s.append(digit_str(n % 10));
        proof {
            assert(s@ =~= dec_digits(n as int));
        }
        s
    }
}

/// Renders a quantity of tenths: sign, whole part, and the fractional digit
/// only when it is non-zero.
pub fn format_deci(d: &Deci) -> (r: String)
    ensures
        r@ == d.spec_chars(),
{
    let negative = d.tenths < 0;
    let magnitude: u32 = if negative {
        (-(d.tenths as i64)) as u32
    } else {
        d.tenths as u32
    };
    proof {
        reveal_strlit("-");
        reveal_strlit(".");
    }
    let mut s = if negative {
        String::from_str("-")
    } else {
        String::new()
    };
    s.append(format_u32(magnitude / 10).as_str());
    if magnitude % 10 != 0 {
        s.append(".");
        s.append(digit_str(magnitude % 10));
    }
    proof {
        assert(s@ =~= d.spec_chars());
    }
    s
}

/// Ten to the `k`.
pub open spec fn pow10(k: nat) -> int
    decreases k,
{
    if k == 0 { 1 } else { 10 * pow10((k - 1) as nat) }
}

/// A number below ten to the `k` renders in at most `k` digits.
pub proof fn lemma_dec_digits_len(n: int, k: nat)
    requires
        0 <= n,
        1 <= k,
        n < pow10(k),
    ensures
        dec_digits(n).len() <= k,
    decreases k,
{
    if n <= 9 {
    } else {
        assert(pow10(k) == 10 * pow10((k - 1) as nat));
        lemma_dec_digits_len(n / 10, (k - 1) as nat);
    }
}

/// A `u32` value renders in at most ten digits.
pub proof fn lemma_u32_digits_len(n: u32)
    ensures
        dec_digits(n as int).len() <= 10,
{
    assert(pow10(10) == 10000000000) by {
        reveal_with_fuel(pow10, 11);
    }
    lemma_dec_digits_len(n as int, 10);
}

/// A quantity of tenths held in an `i32` renders in at most thirteen
/// characters: a sign, ten digits, a point, and a fractional digit.
pub proof fn lemma_tenths_len(t: int)
    requires
        i32::MIN <= t <= i32::MAX,
    ensures
        tenths_chars(t).len() <= 13,
{
    let n: int = if t < 0 { -t } else { t };
    assert(pow10(10) == 10000000000) by {
        reveal_with_fuel(pow10, 11);
    }
    lemma_dec_digits_len(n / 10, 10);
}

} // verus!
