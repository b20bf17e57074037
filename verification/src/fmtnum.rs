//! Rendering integers in decimal, for error descriptions.

use vstd::prelude::*;
use vstd::string::StringExecFns;

verus! {

/// The decimal digit character for a value below ten.
pub open spec fn digit_char(d: nat) -> char {
    if d == 0 {
        '0'
    } else if d == 1 {
        '1'
    } else if d == 2 {
        '2'
    } else if d == 3 {
        '3'
    } else if d == 4 {
        '4'
    } else if d == 5 {
        '5'
    } else if d == 6 {
        '6'
    } else if d == 7 {
        '7'
    } else if d == 8 {
        '8'
    } else {
        '9'
    }
}

/// The decimal rendering of a natural number, most significant digit first,
/// with no leading zero except for zero itself.
pub open spec fn spec_nat_string(n: nat) -> Seq<char>
    decreases n,
{
    if n < 10 {
        seq![digit_char(n)]
    } else {
        spec_nat_string(n / 10) + seq![digit_char(n % 10)]
    }
}

/// The decimal rendering of an integer: a minus sign before the digits of
/// the magnitude when negative.
pub open spec fn spec_int_string(i: int) -> Seq<char> {
    if i < 0 {
        seq!['-'] + spec_nat_string((-i) as nat)
    } else {
        spec_nat_string(i as nat)
    }
}

/// The one-character string of the decimal digit `d`.
fn digit_str(d: u64) -> (r: &'static str)
    requires
        d < 10,
    ensures
        r@ == seq![digit_char(d as nat)],
{
    proof {
        reveal_strlit("0");
        reveal_strlit("1");
        reveal_strlit("2");
        reveal_strlit("3");
        reveal_strlit("4");
        reveal_strlit("5");
        reveal_strlit("6");
        reveal_strlit("7");
        reveal_strlit("8");
        reveal_strlit("9");
    }
    if d == 0 {
        "0"
    } else if d == 1 {
        "1"
    } else if d == 2 {
        "2"
    } else if d == 3 {
        "3"
    } else if d == 4 {
        "4"
    } else if d == 5 {
        "5"
    } else if d == 6 {
        "6"
    } else if d == 7 {
        "7"
    } else if d == 8 {
        "8"
    } else {
        "9"
    }
}

/// Render a natural number in decimal.
pub fn nat_string(n: u64) -> (r: String)
    ensures
        r@ == spec_nat_string(n as nat),
    decreases n,
{
    if n < 10 {
        String::from_str(digit_str(n))
    } else {
        let mut r = nat_string(n / 10);
        r.append(digit_str(n % 10));
        r
    }
}

/// Render a signed integer in decimal.
pub fn int_string(i: i32) -> (r: String)
    ensures
        r@ == spec_int_string(i as int),
{
    if i < 0 {
        let magnitude = (-(i as i64)) as u64;
        let mut r = String::from_str("-");
        r.append(nat_string(magnitude).as_str());
        proof {
            reveal_strlit("-");
        }
        r
    } else {
        nat_string(i as u64)
    }
}

} // verus!
