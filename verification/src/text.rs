//! Decimal rendering for the library's own diagnostic and error strings.

use vstd::prelude::*;

verus! {

/// The single-character string for one decimal digit.
pub open spec fn digit_str(d: int) -> Seq<char> {
    if d == 0 {
        "0"@
    } else if d == 1 {
        "1"@
    } else if d == 2 {
        "2"@
    } else if d == 3 {
        "3"@
    } else if d == 4 {
        "4"@
    } else if d == 5 {
        "5"@
    } else if d == 6 {
        "6"@
    } else if d == 7 {
        "7"@
    } else if d == 8 {
        "8"@
    } else {
        "9"@
    }
}

fn digit_str_exec(d: u64) -> (r: &'static str)
    requires
        d < 10,
    ensures
        r@ == digit_str(d as int),
{
    if d == 0 {
        "0"
    } else if d == 1 {
        "1"
    } else if d == 2 {
        "2"
    } else if d == 3 {
        "3"
    } else if d == 4 {
        "4"
    } else if d == 5 {
        "5"
    } else if d == 6 {
        "6"
    } else if d == 7 {
        "7"
    } else if d == 8 {
        "8"
    } else {
        "9"
    }
}

/// The decimal rendering of a non-negative number, most significant digit
/// first, without leading zeros (except for 0 itself).
pub open spec fn spec_decimal(n: int) -> Seq<char>
    decreases n when n >= 0
{
    if n < 10 {
        digit_str(n)
    } else {
        spec_decimal(n / 10) + digit_str(n % 10)
    }
}

/// Render a number in decimal.
pub fn to_decimal(n: u64) -> (r: String)
    ensures
        r@ == spec_decimal(n as int),
    decreases n,
{
    if n < 10 {
        String::from_str(digit_str_exec(n))
    } else {
        let mut s = to_decimal(n / 10);
        s.append(digit_str_exec(n % 10));
        s
    }
}

/// The decimal rendering of a signed number: a minus sign before the digits
/// of its magnitude.
pub open spec fn spec_decimal_signed(n: int) -> Seq<char> {
    if n < 0 {
        "-"@ + spec_decimal(-n)
    } else {
        spec_decimal(n)
    }
}

/// Render a signed number in decimal.
pub fn to_decimal_signed(n: i64) -> (r: String)
    ensures
        r@ == spec_decimal_signed(n as int),
{
    if n < 0 {
        let magnitude: u64 = ((-(n as i128)) as u64);
        let mut s = String::from_str("-");
        let digits = to_decimal(magnitude);
        s.append(digits.as_str());
        s
    } else {
        to_decimal(n as u64)
    }
}

/// A value below 100 rendered as exactly two digits, with a leading zero.
pub open spec fn spec_two_digits(n: int) -> Seq<char> {
    digit_str(n / 10) + digit_str(n % 10)
}

/// Render a value below 100 as exactly two digits.
pub fn to_two_digits(n: u64) -> (r: String)
    requires
        n < 100,
    ensures
        r@ == spec_two_digits(n as int),
{
    let mut s = String::from_str(digit_str_exec(n / 10));
    s.append(digit_str_exec(n % 10));
    s
}

} // verus!
