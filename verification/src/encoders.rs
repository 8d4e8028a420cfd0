//! Manufacturer part-number encoders.
//!
//! Each encoder is a pure function of the resistance value (in centi-ohms)
//! and the package code.  Encoders never fail: a package outside an
//! encoder's table degrades to that encoder's generic pattern, because a
//! part number is advisory data, not structural geometry.
//!
//! The Vishay encoder follows the CRCW resistance-code convention as it is
//! recovered from the canonical display string: a value rendered `1.05K`
//! encodes as `1K05`, a value of ten kilo-ohms or more keeps only its
//! integer kilo-ohm part (`21.5K` encodes as `21K0`), and a value of a
//! megohm or more falls back to the `1R00` placeholder, as the display
//! string of such a value carries an `M` the code parser does not read.

use vstd::prelude::*;
use vstd::string::*;
use crate::numfmt::{digit_seq, dec_digits, pad2, pad3, round_even, round_half_up, push_digit,
    push_u64, push_pad2, push_pad3, div_round_even, div_round_half_up};
use crate::value_format::{spec_format_value, push_value};
use crate::str_eq;

verus! {

/// The CRCW resistance code of `c` centi-ohms.
pub open spec fn spec_vishay_code(c: int) -> Seq<char> {
    if c < 1000 {
        dec_digits(c / 100) + "R"@ + pad2(c % 100)
    } else if c < 10000 {
        if round_even(c, 10) >= 1000 {
            dec_digits(round_even(round_even(c, 10), 10)) + "R"@
        } else {
            dec_digits(round_even(round_even(c, 10), 10)) + "R0"@
        }
    } else if c < 100000 {
        dec_digits(round_even(c, 100)) + "R"@
    } else if c < 1000000 {
        if round_even(c, 1000) >= 1000 {
            dec_digits(round_even(c, 1000) / 100) + "K0"@
        } else {
            dec_digits(round_even(c, 1000) / 100) + "K"@ + pad2(round_even(c, 1000) % 100)
        }
    } else if c < 10000000 {
        dec_digits(round_even(c, 10000) / 10) + "K0"@
    } else if c < 100000000 {
        dec_digits(round_even(c, 100000)) + "K0"@
    } else {
        "1R00"@
    }
}

/// Appends the CRCW resistance code of `c` centi-ohms.
pub fn push_vishay_code(out: &mut String, c: u64)
    requires
        c < u64::MAX,
    ensures
        final(out)@ == old(out)@ + spec_vishay_code(c as int),
{
    if c < 1000 {
        push_u64(out, c / 100);
        out.append("R");
        push_pad2(out, c % 100);
    } else if c < 10000 {
        let deci = div_round_even(c, 10);
        push_u64(out, div_round_even(deci, 10));
        if deci >= 1000 {
            out.append("R");
        } else {
            out.append("R0");
        }
    } else if c < 100000 {
        push_u64(out, div_round_even(c, 100));
        out.append("R");
    } else if c < 1000000 {
        let k = div_round_even(c, 1000);
        push_u64(out, k / 100);
        if k >= 1000 {
            out.append("K0");
        } else {
            out.append("K");
            push_pad2(out, k % 100);
        }
    } else if c < 10000000 {
        push_u64(out, div_round_even(c, 10000) / 10);
        out.append("K0");
    } else if c < 100000000 {
        push_u64(out, div_round_even(c, 100000));
        out.append("K0");
    } else {
        out.append("1R00");
    }
    proof {
        assert(final(out)@ =~= old(out)@ + spec_vishay_code(c as int));
    }
}

/// The package code as Vishay prints it; sizes outside the CRCW range
/// fall back to `0603`.
pub open spec fn spec_vishay_package(p: Seq<char>) -> Seq<char> {
    if p == "0402"@ || p == "0603"@ || p == "0805"@ || p == "1206"@ || p == "1210"@ || p
        == "2010"@ || p == "2512"@ {
        p
    } else {
        "0603"@
    }
}

/// The full Vishay CRCW part number of `c` centi-ohms in a package:
/// `CRCW`, the package code, the resistance code, and the fixed `FKEA`
/// suffix (1% tolerance, 100 ppm TCR, AEC-Q200, tape packaging).
pub open spec fn spec_vishay_mpn(p: Seq<char>, c: int) -> Seq<char> {
    "CRCW"@ + spec_vishay_package(p) + spec_vishay_code(c) + "FKEA"@
}

/// The Vishay CRCW part number of `c` centi-ohms in `package`.
pub fn generate_vishay_mpn(c: u64, package: &str) -> (r: String)
    requires
        c < u64::MAX,
    ensures
        r@ == spec_vishay_mpn(package@, c as int),
{
    let mut out = String::from_str("CRCW");
    if str_eq(package, "0402") || str_eq(package, "0603") || str_eq(package, "0805") || str_eq(
        package,
        "1206",
    ) || str_eq(package, "1210") || str_eq(package, "2010") || str_eq(package, "2512") {
        out.append(package);
    } else {
        out.append("0603");
    }
    push_vishay_code(&mut out, c);
    out.append("FKEA");
    proof {
        assert(out@ =~= spec_vishay_mpn(package@, c as int));
    }
    out
}

/// The Digikey cross reference the expansion pipeline files beside a
/// Vishay part: the formatted display value between `541-` and `CT-ND`.
pub open spec fn spec_vishay_digikey_pn(formatted: Seq<char>) -> Seq<char> {
    "541-"@ + formatted + "CT-ND"@
}

/// The Digikey cross reference for a Vishay part, from the formatted
/// display value.
pub fn generate_vishay_digikey_pn(formatted: &str) -> (r: String)
    ensures
        r@ == spec_vishay_digikey_pn(formatted@),
{
    let mut out = String::from_str("541-");
    out.append(formatted);
    out.append("CT-ND");
    proof {
        assert(out@ =~= spec_vishay_digikey_pn(formatted@));
    }
    out
}

/// The Yageo RC part number: `RC`, the package code, the fixed `FR-07`
/// infix, the formatted display value, and `L`.
pub open spec fn spec_yageo_mpn(p: Seq<char>, c: int) -> Seq<char> {
    "RC"@ + p + "FR-07"@ + spec_format_value(c) + "L"@
}

/// The Yageo RC part number of `c` centi-ohms in `package`.
pub fn generate_yageo_mpn(c: u64, package: &str) -> (r: String)
    requires
        c < u64::MAX,
    ensures
        r@ == spec_yageo_mpn(package@, c as int),
{
    let mut out = String::from_str("RC");
    out.append(package);
    out.append("FR-07");
    push_value(&mut out, c);
    out.append("L");
    proof {
        assert(out@ =~= spec_yageo_mpn(package@, c as int));
    }
    out
}

/// The Mouser cross reference for a Yageo part, from the formatted
/// display value.
pub open spec fn spec_yageo_mouser_pn(p: Seq<char>, formatted: Seq<char>) -> Seq<char> {
    "603-RC"@ + p + "FR-07"@ + formatted
}

/// The Mouser cross reference for a Yageo part.
pub fn generate_yageo_mouser_pn(formatted: &str, package: &str) -> (r: String)
    ensures
        r@ == spec_yageo_mouser_pn(package@, formatted@),
{
    let mut out = String::from_str("603-RC");
    out.append(package);
    out.append("FR-07");
    out.append(formatted);
    proof {
        assert(out@ =~= spec_yageo_mouser_pn(package@, formatted@));
    }
    out
}

/// The KOA four-character resistance code of `c` centi-ohms.  Six decade
/// ranges each re-scale the value to three digits and append the range's
/// exponent digit; below ten ohms the code carries an `R` in place of a
/// decimal point.  Re-scaling rounds to nearest with ties away from zero.
pub open spec fn spec_koa_code(c: int) -> Seq<char> {
    if c < 1000 {
        pad2(round_half_up(c, 10) / 10) + "R"@ + digit_seq(round_half_up(c, 10) % 10)
    } else if c < 10000 {
        pad3(round_half_up(c, 10)) + "0"@
    } else if c < 100000 {
        pad3(round_half_up(c, 100)) + "1"@
    } else if c < 1000000 {
        pad3(round_half_up(c, 1000)) + "2"@
    } else if c < 10000000 {
        pad3(round_half_up(c, 10000)) + "3"@
    } else if c < 100000000 {
        pad3(round_half_up(c, 100000)) + "4"@
    } else {
        pad3(round_half_up(c, 1000000)) + "5"@
    }
}

/// The KOA resistance code of `c` centi-ohms.
pub fn format_koa_resistance(c: u64) -> (r: String)
    requires
        c < u64::MAX,
    ensures
        r@ == spec_koa_code(c as int),
{
    let mut out = String::new();
    if c < 1000 {
        let v = div_round_half_up(c, 10);
        push_pad2(&mut out, v / 10);
        out.append("R");
        push_digit(&mut out, v % 10);
    } else if c < 10000 {
        push_pad3(&mut out, div_round_half_up(c, 10));
        out.append("0");
    } else if c < 100000 {
        push_pad3(&mut out, div_round_half_up(c, 100));
        out.append("1");
    } else if c < 1000000 {
        push_pad3(&mut out, div_round_half_up(c, 1000));
        out.append("2");
    } else if c < 10000000 {
        push_pad3(&mut out, div_round_half_up(c, 10000));
        out.append("3");
    } else if c < 100000000 {
        push_pad3(&mut out, div_round_half_up(c, 100000));
        out.append("4");
    } else {
        push_pad3(&mut out, div_round_half_up(c, 1000000));
        out.append("5");
    }
    proof {
        assert(out@ =~= spec_koa_code(c as int));
    }
    out
}

/// The KOA size code of a package; sizes outside the table fall back
/// to `1J`.
pub open spec fn spec_koa_size(p: Seq<char>) -> Seq<char> {
    if p == "0402"@ {
        "1E"@
    } else if p == "0603"@ {
        "1J"@
    } else if p == "0805"@ {
        "2A"@
    } else if p == "1206"@ {
        "2B"@
    } else if p == "1210"@ {
        "2E"@
    } else if p == "2010"@ {
        "3A"@
    } else if p == "2512"@ {
        "3E"@
    } else {
        "1J"@
    }
}

/// The KOA size code of `package`.
pub fn koa_size_code(package: &str) -> (r: &'static str)
    ensures
        r@ == spec_koa_size(package@),
{
    if str_eq(package, "0402") {
        "1E"
    } else if str_eq(package, "0603") {
        "1J"
    } else if str_eq(package, "0805") {
        "2A"
    } else if str_eq(package, "1206") {
        "2B"
    } else if str_eq(package, "1210") {
        "2E"
    } else if str_eq(package, "2010") {
        "3A"
    } else if str_eq(package, "2512") {
        "3E"
    } else {
        "1J"
    }
}

/// The KOA RK73H part number: `RK73H`, the size code, the fixed `TTD`
/// termination and packaging infix, the resistance code, and the `F`
/// 1% tolerance letter.
pub open spec fn spec_koa_mpn(p: Seq<char>, c: int) -> Seq<char> {
    "RK73H"@ + spec_koa_size(p) + "TTD"@ + spec_koa_code(c) + "F"@
}

/// The KOA RK73H part number of `c` centi-ohms in `package`.
pub fn generate_koa_mpn(c: u64, package: &str) -> (r: String)
    requires
        c < u64::MAX,
    ensures
        r@ == spec_koa_mpn(package@, c as int),
{
    let mut out = String::from_str("RK73H");
    out.append(koa_size_code(package));
    out.append("TTD");
    let code = format_koa_resistance(c);
    out.append(code.as_str());
    out.append("F");
    proof {
        assert(out@ =~= spec_koa_mpn(package@, c as int));
    }
    out
}

/// The Digikey cross reference for a KOA part: the KOA part number with
/// the `-ND` suffix.
pub open spec fn spec_koa_digikey_pn(p: Seq<char>, c: int) -> Seq<char> {
    spec_koa_mpn(p, c) + "-ND"@
}

/// The Digikey cross reference of a KOA part.
pub fn generate_koa_digikey_pn(c: u64, package: &str) -> (r: String)
    requires
        c < u64::MAX,
    ensures
        r@ == spec_koa_digikey_pn(package@, c as int),
{
    let mut out = generate_koa_mpn(c, package);
    out.append("-ND");
    out
}

} // verus!
