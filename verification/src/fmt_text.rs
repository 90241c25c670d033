//! Verified construction of the few strings the engine renders itself:
//! decimal numbers, dotted tenth-of-second durations, and generated
//! submission identifiers.

use vstd::prelude::*;

verus! {

/// The character for one decimal digit value.
pub open spec fn digit_char(d: int) -> char {
    if d == 0 {
        '0'
    } else if d == 1 {
        '1'
    } else if d == 2 {
        '2'
    } else if d == 3 {
        '3'
    } else if d == 4 {
        '4'
    } else if d == 5 {
        '5'
    } else if d == 6 {
        '6'
    } else if d == 7 {
        '7'
    } else if d == 8 {
        '8'
    } else {
        '9'
    }
}

/// The decimal rendering of a natural number, most significant digit first,
/// with no leading zeros (zero itself renders as "0").
pub open spec fn spec_decimal(n: nat) -> Seq<char>
    decreases n,
{
    if n < 10 {
        seq![digit_char(n as int)]
    } else {
        spec_decimal(n / 10) + seq![digit_char((n % 10) as int)]
    }
}

/// A single-digit string slice.
fn digit_str(d: u64) -> (s: &'static str)
    requires
        d < 10,
    ensures
        s@ == seq![digit_char(d as int)],
{
    proof {
        reveal_strlit("0");
        reveal_strlit("1");
        reveal_strlit("2");
        reveal_strlit("3");
        reveal_strlit("4");
        reveal_strlit("5");
        reveal_strlit("6");
        reveal_strlit("7");
        reveal_strlit("8");
        reveal_strlit("9");
    }
    match d {
        0 => "0",
        1 => "1",
        2 => "2",
        3 => "3",
        4 => "4",
        5 => "5",
        6 => "6",
        7 => "7",
        8 => "8",
        _ => "9",
    }
}

/// Renders a number in decimal.
pub fn u64_to_decimal(n: u64) -> (s: String)
    ensures
        s@ == spec_decimal(n as nat),
    decreases n,
{
    if n < 10 {
        digit_str(n).to_owned()
    } else {
        let mut s = u64_to_decimal(n / 10);
        s.append(digit_str(n % 10));
        s
    }
}

/// The rendering of a count of tenths as a decimal with one fractional
/// digit, e.g. 13 tenths renders as "1.3".
pub open spec fn spec_tenths(tenths: nat) -> Seq<char> {
    spec_decimal(tenths / 10) + seq!['.'] + seq![digit_char((tenths % 10) as int)]
}

/// Renders a count of tenths with one digit after the decimal point.
pub fn tenths_to_decimal(tenths: u64) -> (s: String)
    ensures
        s@ == spec_tenths(tenths as nat),
{
    proof {
        reveal_strlit(".");
    }
    let mut s = u64_to_decimal(tenths / 10);
    s.append(".");
    s.append(digit_str(tenths % 10).to_owned().as_str());
    s
}

} // verus!
