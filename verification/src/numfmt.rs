//! Decimal rendering of unsigned integers, and the two integer rounding
//! rules used by the value formatter and the part-number encoders.
//!
//! Every resistance value in this crate is an exact integer (centi-ohms,
//! deci-ohms, micrometres, ...), so all display text is produced by exact
//! decimal rendering; rounding happens only when a value is re-scaled to
//! fewer digits than it holds.

use vstd::prelude::*;
use vstd::string::*;

verus! {

/// The decimal digit `d` (0 to 9) as a one-character sequence.
pub open spec fn digit_seq(d: int) -> Seq<char> {
    if d == 0 {
        "0"@
    } else if d == 1 {
        "1"@
    } else if d == 2 {
        "2"@
    } else if d == 3 {
        "3"@
    } else if d == 4 {
        "4"@
    } else if d == 5 {
        "5"@
    } else if d == 6 {
        "6"@
    } else if d == 7 {
        "7"@
    } else if d == 8 {
        "8"@
    } else {
        "9"@
    }
}

/// The decimal digits of `n` (no sign, no padding), most significant first.
pub open spec fn dec_digits(n: int) -> Seq<char>
    decreases n,
{
    if n < 10 {
        digit_seq(n)
    } else {
        dec_digits(n / 10) + digit_seq(n % 10)
    }
}

/// The decimal digits of `n`, zero-padded on the left to at least two digits.
pub open spec fn pad2(n: int) -> Seq<char> {
    if n < 10 {
        "0"@ + digit_seq(n)
    } else {
        dec_digits(n)
    }
}

/// The decimal digits of `n`, zero-padded on the left to at least three digits.
pub open spec fn pad3(n: int) -> Seq<char> {
    if n < 10 {
        "00"@ + digit_seq(n)
    } else if n < 100 {
        "0"@ + dec_digits(n)
    } else {
        dec_digits(n)
    }
}

/// `n / d` rounded to the nearest integer, ties to the even neighbour.
///
/// This is the rule fixed-precision display formatting applies when a value
/// is cut to fewer decimal places than it holds.
pub open spec fn round_even(n: int, d: int) -> int {
    let q = n / d;
    let r = n % d;
    if 2 * r < d {
        q
    } else if 2 * r > d {
        q + 1
    } else if q % 2 == 0 {
        q
    } else {
        q + 1
    }
}

/// `n / d` rounded to the nearest integer, ties away from zero
/// (for non-negative `n`: ties upward).
///
/// This is the rule the KOA code ranges apply when re-scaling a value.
pub open spec fn round_half_up(n: int, d: int) -> int {
    let q = n / d;
    let r = n % d;
    if 2 * r >= d {
        q + 1
    } else {
        q
    }
}

/// Appends one decimal digit to `out`.
pub fn push_digit(out: &mut String, d: u64)
    requires
        d < 10,
    ensures
        final(out)@ == old(out)@ + digit_seq(d as int),
{
    if d == 0 {
        out.append("0");
    } else if d == 1 {
        out.append("1");
    } else if d == 2 {
        out.append("2");
    } else if d == 3 {
        out.append("3");
    } else if d == 4 {
        out.append("4");
    } else if d == 5 {
        out.append("5");
    } else if d == 6 {
        out.append("6");
    } else if d == 7 {
        out.append("7");
    } else if d == 8 {
        out.append("8");
    } else {
        out.append("9");
    }
}

/// Appends the decimal digits of `n` to `out`.
pub fn push_u64(out: &mut String, n: u64)
    ensures
        final(out)@ == old(out)@ + dec_digits(n as int),
    decreases n,
{
    if n < 10 {
        push_digit(out, n);
    } else {
        push_u64(out, n / 10);
        push_digit(out, n % 10);
        proof {
            assert(old(out)@ + (dec_digits((n / 10) as int) + digit_seq((n % 10) as int)) =~= (
            old(out)@ + dec_digits((n / 10) as int)) + digit_seq((n % 10) as int));
        }
    }
}

/// Appends `n` zero-padded to at least two digits.
pub fn push_pad2(out: &mut String, n: u64)
    ensures
        final(out)@ == old(out)@ + pad2(n as int),
{
    if n < 10 {
        out.append("0");
        push_digit(out, n);
        proof {
            assert(old(out)@ + ("0"@ + digit_seq(n as int)) =~= (old(out)@ + "0"@) + digit_seq(
                n as int,
            ));
        }
    } else {
        push_u64(out, n);
    }
}

/// Appends `n` zero-padded to at least three digits.
pub fn push_pad3(out: &mut String, n: u64)
    ensures
        final(out)@ == old(out)@ + pad3(n as int),
{
    if n < 10 {
        out.append("00");
        push_digit(out, n);
        proof {
            assert(old(out)@ + ("00"@ + digit_seq(n as int)) =~= (old(out)@ + "00"@) + digit_seq(
                n as int,
            ));
        }
    } else if n < 100 {
        out.append("0");
        push_u64(out, n);
        proof {
            assert(old(out)@ + ("0"@ + dec_digits(n as int)) =~= (old(out)@ + "0"@) + dec_digits(
                n as int,
            ));
        }
    } else {
        push_u64(out, n);
    }
}

/// `n / d` rounded to nearest, ties to even.
pub fn div_round_even(n: u64, d: u64) -> (r: u64)
    requires
        0 < d <= u32::MAX,
        n < u64::MAX,
    ensures
        r == round_even(n as int, d as int),
{
    let q = n / d;
    let rem = n % d;
    if 2 * (rem as u128) < d as u128 {
        q
    } else if 2 * (rem as u128) > d as u128 {
        q + 1
    } else if q % 2 == 0 {
        q
    } else {
        q + 1
    }
}

/// `n / d` rounded to nearest, ties upward.
pub fn div_round_half_up(n: u64, d: u64) -> (r: u64)
    requires
        0 < d <= u32::MAX,
        n < u64::MAX,
    ensures
        r == round_half_up(n as int, d as int),
{
    let q = n / d;
    let rem = n % d;
    if 2 * (rem as u128) >= d as u128 {
        q + 1
    } else {
        q
    }
}

} // verus!
