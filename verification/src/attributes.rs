//! Attribute lookup tables: tolerance by series, power rating and metric
//! naming by package code.
//!
//! The string-keyed lookups keep the leniency of the descriptor path: an
//! unknown key falls back to a default rather than failing, because the
//! derived attribute is advisory data.  The tolerance lookup by cardinality
//! also exists in a strict form for the expansion pipeline, where an
//! unsupported series must abort the whole request.

use vstd::prelude::*;
use crate::LibraryError;
use crate::str_eq;
use crate::series::supported_cardinality;

verus! {

/// The tolerance class of a series cardinality, with the `1%` fallback
/// for cardinalities outside the table.
pub open spec fn spec_tolerance(n: int) -> Seq<char> {
    if n == 192 {
        "0.5%"@
    } else if n == 96 {
        "1%"@
    } else if n == 48 {
        "2%"@
    } else if n == 24 {
        "5%"@
    } else if n == 12 {
        "10%"@
    } else if n == 6 {
        "20%"@
    } else if n == 3 {
        "50%"@
    } else {
        "1%"@
    }
}

/// The tolerance string of a series cardinality; unknown cardinalities
/// fall back to `1%`.
pub fn tolerance_from_series(series: usize) -> (r: &'static str)
    ensures
        r@ == spec_tolerance(series as int),
{
    if series == 192 {
        "0.5%"
    } else if series == 96 {
        "1%"
    } else if series == 48 {
        "2%"
    } else if series == 24 {
        "5%"
    } else if series == 12 {
        "10%"
    } else if series == 6 {
        "20%"
    } else if series == 3 {
        "50%"
    } else {
        "1%"
    }
}

/// The tolerance string of a series cardinality; an unsupported
/// cardinality is an error rather than a silent default.
pub fn tolerance(series_cardinality: usize) -> (r: Result<&'static str, LibraryError>)
    ensures
        supported_cardinality(series_cardinality as int) <==> r is Ok,
        r matches Ok(t) ==> t@ == spec_tolerance(series_cardinality as int),
        r matches Err(e) ==> e == LibraryError::UnsupportedSeries,
{
    if series_cardinality == 3 || series_cardinality == 6 || series_cardinality == 12
        || series_cardinality == 24 || series_cardinality == 48 || series_cardinality == 96
        || series_cardinality == 192 {
        Ok(tolerance_from_series(series_cardinality))
    } else {
        Err(LibraryError::UnsupportedSeries)
    }
}

/// The tolerance class of a series name ("E96" .. "E6", letter case does
/// not matter), with the `1%` fallback.
pub open spec fn spec_tolerance_by_name(s: Seq<char>) -> Seq<char> {
    if s == "E96"@ || s == "e96"@ {
        "1%"@
    } else if s == "E48"@ || s == "e48"@ {
        "2%"@
    } else if s == "E24"@ || s == "e24"@ {
        "5%"@
    } else if s == "E12"@ || s == "e12"@ {
        "10%"@
    } else if s == "E6"@ || s == "e6"@ {
        "20%"@
    } else {
        "1%"@
    }
}

/// The tolerance string of a series named "E96" .. "E6" (letter case does
/// not matter); unknown names fall back to `1%`.
pub fn get_tolerance(series: &str) -> (r: &'static str)
    ensures
        r@ == spec_tolerance_by_name(series@),
{
    if str_eq(series, "E96") || str_eq(series, "e96") {
        "1%"
    } else if str_eq(series, "E48") || str_eq(series, "e48") {
        "2%"
    } else if str_eq(series, "E24") || str_eq(series, "e24") {
        "5%"
    } else if str_eq(series, "E12") || str_eq(series, "e12") {
        "10%"
    } else if str_eq(series, "E6") || str_eq(series, "e6") {
        "20%"
    } else {
        "1%"
    }
}

/// The power rating of a package code, with the `1/10W` fallback.
pub open spec fn spec_power_rating(p: Seq<char>) -> Seq<char> {
    if p == "0201"@ {
        "1/20W"@
    } else if p == "0402"@ {
        "1/16W"@
    } else if p == "0603"@ {
        "1/10W"@
    } else if p == "0805"@ {
        "1/8W"@
    } else if p == "1206"@ {
        "1/4W"@
    } else if p == "1210"@ {
        "1/2W"@
    } else if p == "2010"@ {
        "3/4W"@
    } else if p == "2512"@ {
        "1W"@
    } else {
        "1/10W"@
    }
}

/// The power rating string of a package code; unknown codes fall back
/// to `1/10W`.
pub fn get_power_rating(package: &str) -> (r: &'static str)
    ensures
        r@ == spec_power_rating(package@),
{
    if str_eq(package, "0201") {
        "1/20W"
    } else if str_eq(package, "0402") {
        "1/16W"
    } else if str_eq(package, "0603") {
        "1/10W"
    } else if str_eq(package, "0805") {
        "1/8W"
    } else if str_eq(package, "1206") {
        "1/4W"
    } else if str_eq(package, "1210") {
        "1/2W"
    } else if str_eq(package, "2010") {
        "3/4W"
    } else if str_eq(package, "2512") {
        "1W"
    } else {
        "1/10W"
    }
}

/// The metric footprint-name suffix of a package code, with the bare
/// `_Metric` fallback.
pub open spec fn spec_metric_suffix(p: Seq<char>) -> Seq<char> {
    if p == "0201"@ {
        "_0603Metric"@
    } else if p == "0402"@ {
        "_1005Metric"@
    } else if p == "0603"@ {
        "_1608Metric"@
    } else if p == "0805"@ {
        "_2012Metric"@
    } else if p == "1206"@ {
        "_3216Metric"@
    } else if p == "1210"@ {
        "_3225Metric"@
    } else if p == "2010"@ {
        "_5025Metric"@
    } else if p == "2512"@ {
        "_6332Metric"@
    } else {
        "_Metric"@
    }
}

/// The metric suffix of a package code, for footprint names such as
/// `R_0603_1608Metric`; unknown codes fall back to `_Metric`.
pub fn get_metric_suffix(package: &str) -> (r: &'static str)
    ensures
        r@ == spec_metric_suffix(package@),
{
    if str_eq(package, "0201") {
        "_0603Metric"
    } else if str_eq(package, "0402") {
        "_1005Metric"
    } else if str_eq(package, "0603") {
        "_1608Metric"
    } else if str_eq(package, "0805") {
        "_2012Metric"
    } else if str_eq(package, "1206") {
        "_3216Metric"
    } else if str_eq(package, "1210") {
        "_3225Metric"
    } else if str_eq(package, "2010") {
        "_5025Metric"
    } else if str_eq(package, "2512") {
        "_6332Metric"
    } else {
        "_Metric"
    }
}

/// The metric body name of a package code, with the `UnknownMetric`
/// fallback.
pub open spec fn spec_metric_name(p: Seq<char>) -> Seq<char> {
    if p == "0201"@ {
        "0603Metric"@
    } else if p == "0402"@ {
        "1005Metric"@
    } else if p == "0603"@ {
        "1608Metric"@
    } else if p == "0805"@ {
        "2012Metric"@
    } else if p == "1206"@ {
        "3216Metric"@
    } else if p == "1210"@ {
        "3225Metric"@
    } else if p == "2010"@ {
        "5025Metric"@
    } else if p == "2512"@ {
        "6332Metric"@
    } else {
        "UnknownMetric"@
    }
}

/// The metric body name of a package code, such as `1608Metric` for
/// `0603`; unknown codes give `UnknownMetric`.
pub fn get_metric_name(package: &str) -> (r: &'static str)
    ensures
        r@ == spec_metric_name(package@),
{
    if str_eq(package, "0201") {
        "0603Metric"
    } else if str_eq(package, "0402") {
        "1005Metric"
    } else if str_eq(package, "0603") {
        "1608Metric"
    } else if str_eq(package, "0805") {
        "2012Metric"
    } else if str_eq(package, "1206") {
        "3216Metric"
    } else if str_eq(package, "1210") {
        "3225Metric"
    } else if str_eq(package, "2010") {
        "5025Metric"
    } else if str_eq(package, "2512") {
        "6332Metric"
    } else {
        "UnknownMetric"
    }
}

/// The wattage fraction of a package code without the unit, as carried by
/// a resistor under construction; unknown codes give `0`.
pub open spec fn spec_watts(p: Seq<char>) -> Seq<char> {
    if p == "0201"@ {
        "1/20"@
    } else if p == "0402"@ {
        "1/16"@
    } else if p == "0603"@ {
        "1/10"@
    } else if p == "0805"@ {
        "1/8"@
    } else if p == "1206"@ {
        "1/4"@
    } else if p == "1210"@ {
        "1/2"@
    } else if p == "1218"@ {
        "1"@
    } else if p == "2010"@ {
        "3/4"@
    } else if p == "2512"@ {
        "1"@
    } else {
        "0"@
    }
}

/// The wattage fraction of a package code without the `W` unit; unknown
/// codes give `0`.
pub fn watts_for_package(package: &str) -> (r: &'static str)
    ensures
        r@ == spec_watts(package@),
{
    if str_eq(package, "0201") {
        "1/20"
    } else if str_eq(package, "0402") {
        "1/16"
    } else if str_eq(package, "0603") {
        "1/10"
    } else if str_eq(package, "0805") {
        "1/8"
    } else if str_eq(package, "1206") {
        "1/4"
    } else if str_eq(package, "1210") {
        "1/2"
    } else if str_eq(package, "1218") {
        "1"
    } else if str_eq(package, "2010") {
        "3/4"
    } else if str_eq(package, "2512") {
        "1"
    } else {
        "0"
    }
}

/// The power rating of a package code as used for symbol descriptions:
/// the same table as [`spec_power_rating`] with the `1218` size added.
pub open spec fn spec_power_rating_full(p: Seq<char>) -> Seq<char> {
    if p == "1218"@ {
        "1W"@
    } else {
        spec_power_rating(p)
    }
}

/// The power rating string of a package code including the `1218` size;
/// unknown codes fall back to `1/10W`.
pub fn power_rating_full(package: &str) -> (r: &'static str)
    ensures
        r@ == spec_power_rating_full(package@),
{
    if str_eq(package, "1218") {
        "1W"
    } else {
        get_power_rating(package)
    }
}

} // verus!
