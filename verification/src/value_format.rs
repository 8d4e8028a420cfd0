//! The canonical display string of a resistance value.
//!
//! One formatter feeds every output backend and every part-number encoder,
//! so the same logical component always shows the same value in KiCad and
//! Altium output.  The value is taken in centi-ohms; the number of digits
//! kept depends on the decade of the value:
//!
//! * below 10 ohms: two decimals (`1.00`);
//! * 10 to below 100 ohms: one decimal (`10.0`);
//! * 100 to below 1000 ohms: integer ohms (`100`);
//! * 1 K to below 10 K: kilo-ohms to two decimals plus `K` (`1.00K`);
//! * 10 K to below 100 K: kilo-ohms to one decimal plus `K` (`10.0K`);
//! * 100 K to below 1 M: integer kilo-ohms plus `K` (`100K`);
//! * 1 M and above: mega-ohms to two decimals plus `M` (`1.00M`).
//!
//! A value cut to fewer digits than it holds is rounded to nearest with
//! ties to even, the rule fixed-precision display formatting applies.
//! Values produced by the expansion pipeline are never cut: a base value
//! carries two decimals and the decade multiplier shifts it, so each case
//! above renders exactly.

use vstd::prelude::*;
use vstd::string::*;
use crate::numfmt::{digit_seq, dec_digits, pad2, round_even, push_digit, push_u64, push_pad2, div_round_even};

verus! {

/// `v` hundredths rendered as a fixed two-decimal number (`123` is `1.23`).
pub open spec fn fixed2(v: int) -> Seq<char> {
    dec_digits(v / 100) + "."@ + pad2(v % 100)
}

/// `v` tenths rendered as a fixed one-decimal number (`105` is `10.5`).
pub open spec fn fixed1(v: int) -> Seq<char> {
    dec_digits(v / 10) + "."@ + digit_seq(v % 10)
}

/// The canonical display string of `c` centi-ohms.
pub open spec fn spec_format_value(c: int) -> Seq<char> {
    if c < 1000 {
        fixed2(c)
    } else if c < 10000 {
        fixed1(round_even(c, 10))
    } else if c < 100000 {
        dec_digits(round_even(c, 100))
    } else if c < 1000000 {
        fixed2(round_even(c, 1000)) + "K"@
    } else if c < 10000000 {
        fixed1(round_even(c, 10000)) + "K"@
    } else if c < 100000000 {
        dec_digits(round_even(c, 100000)) + "K"@
    } else {
        fixed2(round_even(c, 1000000)) + "M"@
    }
}

/// Appends `v` hundredths as a fixed two-decimal number.
pub fn push_fixed2(out: &mut String, v: u64)
    ensures
        final(out)@ == old(out)@ + fixed2(v as int),
{
    push_u64(out, v / 100);
    out.append(".");
    push_pad2(out, v % 100);
    proof {
        assert(final(out)@ =~= old(out)@ + fixed2(v as int));
    }
}

/// Appends `v` tenths as a fixed one-decimal number.
pub fn push_fixed1(out: &mut String, v: u64)
    ensures
        final(out)@ == old(out)@ + fixed1(v as int),
{
    push_u64(out, v / 10);
    out.append(".");
    push_digit(out, v % 10);
    proof {
        assert(final(out)@ =~= old(out)@ + fixed1(v as int));
    }
}

/// Appends the canonical display string of `c` centi-ohms.
pub fn push_value(out: &mut String, c: u64)
    requires
        c < u64::MAX,
    ensures
        final(out)@ == old(out)@ + spec_format_value(c as int),
{
    if c < 1000 {
        push_fixed2(out, c);
    } else if c < 10000 {
        push_fixed1(out, div_round_even(c, 10));
    } else if c < 100000 {
        push_u64(out, div_round_even(c, 100));
    } else if c < 1000000 {
        push_fixed2(out, div_round_even(c, 1000));
        out.append("K");
    } else if c < 10000000 {
        push_fixed1(out, div_round_even(c, 10000));
        out.append("K");
    } else if c < 100000000 {
        push_u64(out, div_round_even(c, 100000));
        out.append("K");
    } else {
        push_fixed2(out, div_round_even(c, 1000000));
        out.append("M");
    }
    proof {
        assert(final(out)@ =~= old(out)@ + spec_format_value(c as int));
    }
}

/// The canonical display string of `c` centi-ohms.
pub fn format_value(c: u64) -> (r: String)
    requires
        c < u64::MAX,
    ensures
        r@ == spec_format_value(c as int),
{
    let mut out = String::new();
    push_value(&mut out, c);
    proof {
        assert(Seq::<char>::empty() + spec_format_value(c as int) =~= spec_format_value(c as int));
    }
    out
}

/// The formatter is a function of the value alone: formatting the same
/// number of centi-ohms again gives the identical string.
pub proof fn lemma_format_stable(c1: int, c2: int)
    requires
        c1 == c2,
    ensures
        spec_format_value(c1) == spec_format_value(c2),
{
}


/// A base value carries two decimals and a decade multiplier only
/// shifts it, so the formatter renders every expanded value without
/// cutting a digit: each decade's case reproduces the base value's
/// digits exactly, with the decade boundary rules deciding the shape.
pub proof fn lemma_expanded_values_render_exactly(b: int, d: int)
    requires
        100 <= b < 1000,
    ensures
        d == 1 ==> spec_format_value(b * d) == fixed2(b),
        d == 10 ==> spec_format_value(b * d) == fixed1(b),
        d == 100 ==> spec_format_value(b * d) == dec_digits(b),
        d == 1000 ==> spec_format_value(b * d) == fixed2(b) + "K"@,
        d == 10000 ==> spec_format_value(b * d) == fixed1(b) + "K"@,
        d == 100000 ==> spec_format_value(b * d) == dec_digits(b) + "K"@,
        d == 1000000 ==> spec_format_value(b * d) == fixed2(b) + "M"@,
{
}

/// A base value in hundredths rendered the way a bare number displays:
/// trailing zeros of the fraction dropped (`1.00` shows as `1`, `7.50`
/// as `7.5`, `9.76` as `9.76`).
pub open spec fn spec_display_base(b: int) -> Seq<char> {
    if b % 100 == 0 {
        dec_digits(b / 100)
    } else if b % 10 == 0 {
        dec_digits(b / 100) + "."@ + digit_seq((b % 100) / 10)
    } else {
        fixed2(b)
    }
}

/// Appends a base value in hundredths with trailing fraction zeros dropped.
pub fn push_display_base(out: &mut String, b: u64)
    ensures
        final(out)@ == old(out)@ + spec_display_base(b as int),
{
    if b % 100 == 0 {
        push_u64(out, b / 100);
    } else if b % 10 == 0 {
        push_u64(out, b / 100);
        out.append(".");
        push_digit(out, (b % 100) / 10);
    } else {
        push_fixed2(out, b);
    }
    proof {
        assert(final(out)@ =~= old(out)@ + spec_display_base(b as int));
    }
}

} // verus!
