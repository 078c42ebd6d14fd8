//! Decimal rendering of the integers that appear in query strings and
//! error messages, specified character by character.

use vstd::prelude::*;
use vstd::string::StringExecFns;

verus! {

/// The single character for a decimal digit.
pub open spec fn digit_seq(d: int) -> Seq<char> {
    if d == 0 {
        "0"@
    } else if d == 1 {
        "1"@
    } else if d == 2 {
        "2"@
    } else if d == 3 {
        "3"@
    } else if d == 4 {
        "4"@
    } else if d == 5 {
        "5"@
    } else if d == 6 {
        "6"@
    } else if d == 7 {
        "7"@
    } else if d == 8 {
        "8"@
    } else {
        "9"@
    }
}

/// The decimal rendering of a nonnegative integer, most significant digit
/// first, with no leading zeros except for zero itself.
pub open spec fn dec_seq(n: int) -> Seq<char>
    recommends
        n >= 0,
    decreases n,
{
    if n < 10 {
        digit_seq(n)
    } else {
        dec_seq(n / 10) + digit_seq(n % 10)
    }
}

/// The decimal rendering of a signed integer: a minus sign before the
/// magnitude when negative.
pub open spec fn int_seq(i: int) -> Seq<char> {
    if i < 0 {
        "-"@ + dec_seq(-i)
    } else {
        dec_seq(i)
    }
}

fn digit_str(d: usize) -> (r: &'static str)
    requires
        d < 10,
    ensures
        r@ == digit_seq(d as int),
{
    if d == 0 {
        "0"
    } else if d == 1 {
        "1"
    } else if d == 2 {
        "2"
    } else if d == 3 {
        "3"
    } else if d == 4 {
        "4"
    } else if d == 5 {
        "5"
    } else if d == 6 {
        "6"
    } else if d == 7 {
        "7"
    } else if d == 8 {
        "8"
    } else {
        "9"
    }
}

/// Appends the decimal rendering of `n` to `s`.
pub fn push_dec(s: &mut String, n: usize)
    ensures
        final(s)@ == old(s)@ + dec_seq(n as int),
    decreases n,
{
    if n < 10 {
        s.append(digit_str(n));
    } else {
        push_dec(s, n / 10);
        s.append(digit_str(n % 10));
        proof {
            assert(s@ =~= old(s)@ + dec_seq(n as int));
        }
    }
}

/// Appends the decimal rendering of `i` to `s`, sign included.
pub fn push_i32(s: &mut String, i: i32)
    ensures
        final(s)@ == old(s)@ + int_seq(i as int),
{
    if i < 0 {
        s.append("-");
        let mag: usize = (-(i as i64)) as usize;
        push_dec(s, mag);
        proof {
            assert(s@ =~= old(s)@ + int_seq(i as int));
        }
    } else {
        push_dec(s, i as usize);
    }
}

} // verus!
