//! Generation of electronic-component library records.
//!
//! From an E-series tolerance class, a physical package code and a range of
//! decade multipliers, this crate derives full resistor value sets, formats
//! display values, encodes manufacturer part numbers, and renders the exact
//! text consumed by PCB design tools: Altium CSV imports, KiCad symbol
//! libraries and KiCad footprint files.
//!
//! Resistance values are held as integer centi-ohms (hundredths of an ohm),
//! which represents every value the pipeline produces exactly.

use vstd::prelude::*;

pub mod altium;
pub mod attributes;
pub mod descriptor;
pub mod encoders;
pub mod kicad_footprint;
pub mod kicad_symbol;
pub mod numfmt;
pub mod pipeline;
pub mod record;
pub mod resistor;
pub mod series;
pub mod value_format;

verus! {

/// Character-wise equality of two string slices.
///
/// Relies on `str`'s `PartialEq`: two string slices compare equal exactly
/// when they consist of the same characters.
#[verifier::external_body]
pub(crate) fn str_eq(a: &str, b: &str) -> (r: bool)
    ensures
        r == (a@ == b@),
{
    a == b
}

/// The error kinds of the generation pipeline.
///
/// File-system failures are the caller's concern: this crate only computes
/// text, it never writes it.
#[derive(Clone, Copy, Debug, PartialEq, Eq, Structural)]
pub enum LibraryError {
    /// The requested series cardinality has no tolerance or value table.
    UnsupportedSeries,
    /// The package code is absent from the geometry table.
    UnknownPackage,
}

impl LibraryError {
    /// A short description of the error kind.
    pub fn message(&self) -> (r: &'static str)
        ensures
            *self is UnsupportedSeries ==> r@ == "unsupported E-series"@,
            *self is UnknownPackage ==> r@ == "unknown package code"@,
    {
        match self {
            LibraryError::UnsupportedSeries => "unsupported E-series",
            LibraryError::UnknownPackage => "unknown package code",
        }
    }
}

} // verus!
