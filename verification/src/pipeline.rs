//! The generation pipeline: from parameters to rendered file contents.
//!
//! The pipeline drives the component expansion over the requested
//! parameter space and feeds the records to the selected backends.  It
//! computes text only; writing the files is the caller's concern, so a
//! failed write can never corrupt the pipeline's state.
//!
//! Every function here is deterministic: its result is pinned to a
//! mathematical function of its parameters.  The one exception in the
//! whole crate is the footprint's `tedit` timestamp, which is taken from
//! the clock and excluded from any byte-for-byte comparison.

use vstd::prelude::*;
use vstd::string::*;
use crate::LibraryError;
use crate::series::{supported_cardinality, spec_series};
use crate::attributes::spec_tolerance;
use crate::record::{RecordModel, spec_all_records, expand_components};
use crate::altium::{spec_altium_csv, altium_csv};
use crate::kicad_symbol::{SymbolModel, spec_library_text};
use crate::kicad_footprint::{FootprintModel, KicadFootprint, spec_footprint_name,
    spec_footprint_text, is_known_package};
use crate::resistor::{Resistor, standard_decade, spec_all_symbols};

verus! {

/// The output backends a run can select.
#[derive(Clone, Debug, PartialEq, Eq, Structural)]
pub enum OutputFormat {
    Altium,
    KicadSymbols,
    KicadFootprints,
}

/// The parameters of one generation run.
#[derive(Clone, Debug)]
pub struct GeneratorConfig {
    pub output_formats: Vec<OutputFormat>,
    pub manufacturers: Vec<String>,
    pub decades: Vec<u32>,
}

impl Default for GeneratorConfig {
    /// The stock run: KiCad symbols and footprints, Vishay parts, and
    /// the six decades from one ohm to the hundreds of kilo-ohms.
    fn default() -> (r: GeneratorConfig)
        ensures
            r.output_formats@ == seq![OutputFormat::KicadSymbols, OutputFormat::KicadFootprints],
            r.manufacturers.deep_view() == seq!["Vishay"@],
            r.decades@ == seq![1u32, 10u32, 100u32, 1000u32, 10000u32, 100000u32],
    {
        let mut output_formats: Vec<OutputFormat> = Vec::new();
        output_formats.push(OutputFormat::KicadSymbols);
        output_formats.push(OutputFormat::KicadFootprints);
        let mut manufacturers: Vec<String> = Vec::new();
        manufacturers.push(String::from_str("Vishay"));
        let mut decades: Vec<u32> = Vec::new();
        decades.push(1);
        decades.push(10);
        decades.push(100);
        decades.push(1000);
        decades.push(10000);
        decades.push(100000);
        let r = GeneratorConfig { output_formats, manufacturers, decades };
        proof {
            assert(r.output_formats@ =~= seq![
                OutputFormat::KicadSymbols,
                OutputFormat::KicadFootprints,
            ]);
            assert(r.manufacturers.deep_view() =~~= seq!["Vishay"@]);
            assert(r.decades@ =~= seq![1u32, 10u32, 100u32, 1000u32, 10000u32, 100000u32]);
        }
        r
    }
}

/// The values a preview counts per decade: the requested cardinality
/// where it is one of the four common classes, else ninety-six.
pub open spec fn spec_values_per_decade(e_series: int) -> int {
    if e_series == 24 || e_series == 48 || e_series == 96 || e_series == 192 {
        e_series
    } else {
        96
    }
}

/// The component count a run over six decades will produce, for
/// previews: values per decade times six times packages times
/// manufacturers.
pub fn calculate_component_count(e_series: u32, package_count: usize, manufacturer_count: usize)
    -> (r: usize)
    requires
        1 <= package_count,
        1 <= manufacturer_count,
        spec_values_per_decade(e_series as int) * 6 * package_count * manufacturer_count
            <= usize::MAX,
    ensures
        r == spec_values_per_decade(e_series as int) * 6 * package_count * manufacturer_count,
{
    let values: usize = if e_series == 24 || e_series == 48 || e_series == 96 || e_series == 192 {
        e_series as usize
    } else {
        96
    };
    let ghost v = spec_values_per_decade(e_series as int);
    proof {
        assert(v * 6 * package_count <= v * 6 * package_count * manufacturer_count)
            by (nonlinear_arith)
            requires
                1 <= manufacturer_count,
                0 <= v * 6 * package_count,
                0 <= v,
        ;
        assert(v * 6 <= v * 6 * package_count) by (nonlinear_arith)
            requires
                1 <= package_count,
                0 <= v,
        ;
    }
    let a = values * 6;
    let b = a * package_count;
    b * manufacturer_count
}

/// The full Altium CSV text of one package: the expansion of the series
/// over the decades, rendered behind the fixed header.  An unsupported
/// series aborts with no text at all.
pub fn altium_csv_for_package(
    series_cardinality: usize,
    package: &str,
    decades: &Vec<u32>,
    manufacturers: &Vec<String>,
) -> (r: Result<String, LibraryError>)
    ensures
        supported_cardinality(series_cardinality as int) <==> r is Ok,
        r matches Err(e) ==> e == LibraryError::UnsupportedSeries,
        r matches Ok(text) ==> text@ == spec_altium_csv(
            spec_all_records(
                seq![package@],
                decades@,
                spec_series(series_cardinality as int),
                manufacturers.deep_view(),
                spec_tolerance(series_cardinality as int),
            ),
        ),
{
    let mut packages: Vec<String> = Vec::new();
    packages.push(String::from_str(package));
    proof {
        assert(packages.deep_view() =~~= seq![package@]);
    }
    let records = match expand_components(series_cardinality, &packages, decades, manufacturers) {
        Ok(rs) => rs,
        Err(e) => {
            return Err(e);
        },
    };
    Ok(altium_csv(&records))
}

/// The full KiCad symbol library text of one package, in the requested
/// body style.  An unsupported series aborts with no text at all.
pub fn kicad_symbols_for_package(
    series_cardinality: usize,
    package: &str,
    decades: &Vec<u32>,
    symbol_style: &str,
) -> (r: Result<String, LibraryError>)
    requires
        forall|i: int| 0 <= i < decades@.len() ==> standard_decade(decades@[i] as int),
    ensures
        supported_cardinality(series_cardinality as int) <==> r is Ok,
        r matches Err(e) ==> e == LibraryError::UnsupportedSeries,
        r matches Ok(text) ==> text@ == spec_library_text(
            spec_all_symbols(
                package@,
                spec_series(series_cardinality as int),
                decades@,
                series_cardinality as int,
                symbol_style@,
            ),
        ),
{
    let mut resistor = match Resistor::new(series_cardinality, String::from_str(package)) {
        Ok(res) => res,
        Err(e) => {
            return Err(e);
        },
    };
    Ok(resistor.kicad_symbols_content(decades, symbol_style))
}

/// The footprint file of one package: its file name (stem and
/// extension) and its content, stamped with the current time.  An
/// unknown package is an error: a footprint is never guessed.
pub fn footprint_file_for_package(package: &str) -> (r: Result<(String, String), LibraryError>)
    ensures
        is_known_package(package@) <==> r is Ok,
        r matches Err(e) ==> e == LibraryError::UnknownPackage,
        r matches Ok(f) ==> f.0@ == spec_footprint_name(package@) + ".kicad_mod"@ && (exists|
            t: Seq<char>,
        | f.1@ == spec_footprint_text(crate::kicad_footprint::spec_smd_resistor(package@), t)),
{
    let footprint = match KicadFootprint::new_smd_resistor(package) {
        Some(f) => f,
        None => {
            return Err(LibraryError::UnknownPackage);
        },
    };
    proof {
        assert(footprint.pads@.len() == footprint@.pads.len());
        assert(footprint.pads@[0]@ == footprint@.pads[0]);
        assert(footprint.body_size_x_um / 2 >= footprint.pads@[0].size_x_um / 2 + 150);
        assert forall|i: int| 0 <= i < footprint.pads@.len() implies (#[trigger] footprint.pads@[i]).at_x_um
            > i64::MIN && footprint.pads@[i].at_y_um > i64::MIN by {
            assert(footprint.pads@[i]@ == footprint@.pads[i]);
        }
    }
    let content = footprint.generate_footprint();
    let mut filename = footprint.name.clone();
    filename.append(".kicad_mod");
    Ok((filename, content))
}

/// Running the pipeline twice with identical parameters yields
/// byte-identical text for every output.  Each renderer's own contract
/// pins its result to one of the spec functions below, and those are
/// functions of the parameters alone; the `tedit` timestamp, the one
/// value taken from outside the parameters, is compared here at equal
/// stamps, which is how a byte comparison excludes it.
pub proof fn lemma_pipeline_deterministic(
    rs1: Seq<RecordModel>,
    rs2: Seq<RecordModel>,
    syms1: Seq<SymbolModel>,
    syms2: Seq<SymbolModel>,
    fp1: FootprintModel,
    fp2: FootprintModel,
    t1: Seq<char>,
    t2: Seq<char>,
)
    requires
        rs1 == rs2,
        syms1 == syms2,
        fp1 == fp2,
        t1 == t2,
    ensures
        spec_altium_csv(rs1) == spec_altium_csv(rs2),
        spec_library_text(syms1) == spec_library_text(syms2),
        spec_footprint_text(fp1, t1) == spec_footprint_text(fp2, t2),
{
}

} // verus!
