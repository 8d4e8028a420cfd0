//! Library descriptors: the configuration-shaped records that describe a
//! generated library to the surrounding tool.
//!
//! A descriptor is an alternate parameter source for the expansion
//! pipeline: it names the series, package, footprint and attributes of
//! one library.  This module only assembles the record; reading or
//! writing it as JSON is the surrounding tool's concern.
//!
//! Scale factors are held exactly: a value multiplier as an integer
//! factor, a capacitor value suffix as its power of ten.

use vstd::prelude::*;
use vstd::string::*;
use crate::LibraryError;
use crate::series::{spec_std_series, get_e_series};
use crate::attributes::{spec_tolerance_by_name, spec_power_rating, spec_metric_suffix,
    get_tolerance, get_power_rating, get_metric_suffix};

verus! {

/// The builder-method names a descriptor offers to its consumer.
#[derive(Clone, Debug)]
pub struct LibraryMethods {
    pub after_factory: Vec<String>,
    pub after_value: Vec<String>,
}

/// The method names available right after the factory call.
pub open spec fn spec_after_factory() -> Seq<Seq<char>> {
    seq!["and_value"@, "at"@, "located_at"@, "on_layer"@, "rotated"@, "place"@]
}

/// The method names available after a value is chosen.
pub open spec fn spec_after_value() -> Seq<Seq<char>> {
    seq!["at"@, "located_at"@, "on_layer"@, "rotated"@, "place"@]
}

impl Default for LibraryMethods {
    /// The stock method set of every descriptor.
    fn default() -> (r: LibraryMethods)
        ensures
            r.after_factory.deep_view() == spec_after_factory(),
            r.after_value.deep_view() == spec_after_value(),
    {
        let mut after_factory: Vec<String> = Vec::new();
        after_factory.push(String::from_str("and_value"));
        after_factory.push(String::from_str("at"));
        after_factory.push(String::from_str("located_at"));
        after_factory.push(String::from_str("on_layer"));
        after_factory.push(String::from_str("rotated"));
        after_factory.push(String::from_str("place"));
        let mut after_value: Vec<String> = Vec::new();
        after_value.push(String::from_str("at"));
        after_value.push(String::from_str("located_at"));
        after_value.push(String::from_str("on_layer"));
        after_value.push(String::from_str("rotated"));
        after_value.push(String::from_str("place"));
        let r = LibraryMethods { after_factory, after_value };
        proof {
            assert(r.after_factory.deep_view() =~~= spec_after_factory());
            assert(r.after_value.deep_view() =~~= spec_after_value());
        }
        r
    }
}

/// A resistor library descriptor.
#[derive(Clone, Debug)]
pub struct ResistorLibrary {
    pub name: String,
    pub component_type: String,
    pub description: String,
    pub package: String,
    pub footprint: String,
    pub tolerance: String,
    pub power_rating: String,
    pub series: String,
    pub pins: Vec<String>,
    pub prefix: String,
    /// Base values in hundredths.
    pub base_values: Vec<u16>,
    /// Value-suffix multipliers: suffix and integer factor.
    pub multipliers: Vec<(String, u64)>,
    pub methods: LibraryMethods,
}

/// The value multipliers of a resistor descriptor: none, `k`, `K`
/// and `M`.
pub open spec fn spec_multiplier_factors() -> Seq<u64> {
    seq![1u64, 1000u64, 1000u64, 1000000u64]
}

/// The suffix letters of the multipliers, in the same order.
pub open spec fn spec_multiplier_suffixes() -> Seq<Seq<char>> {
    seq![""@, "k"@, "K"@, "M"@]
}

/// Builds the descriptor of one resistor library.  An unknown series
/// name is rejected; the whole request fails rather than describing a
/// library that cannot be expanded.
pub fn resistor_library(series: &str, package: &str) -> (r: Result<ResistorLibrary, LibraryError>)
    ensures
        spec_std_series(series@).len() != 0 <==> r is Ok,
        r matches Err(e) ==> e == LibraryError::UnsupportedSeries,
        r matches Ok(lib) ==> lib.name@ == series@ + "_"@ + package@ && lib.component_type@
            == "resistor"@ && lib.description@ == series@ + " Resistors in "@ + package@
            + " package"@ && lib.package@ == package@ && lib.footprint@ == "Resistor_SMD:R_"@
            + package@ + spec_metric_suffix(package@) && lib.tolerance@ == spec_tolerance_by_name(
            series@,
        ) && lib.power_rating@ == spec_power_rating(package@) && lib.series@ == series@
            && lib.pins.deep_view() == seq!["1"@, "2"@] && lib.prefix@ == "R"@
            && lib.base_values@ == spec_std_series(series@)
            && lib.multipliers@.map_values(|m: (String, u64)| m.0@) == spec_multiplier_suffixes()
            && lib.multipliers@.map_values(|m: (String, u64)| m.1) == spec_multiplier_factors()
            && lib.methods.after_factory.deep_view() == spec_after_factory()
            && lib.methods.after_value.deep_view() == spec_after_value(),
{
    let base_values = match get_e_series(series) {
        Ok(v) => v,
        Err(e) => {
            return Err(e);
        },
    };
    let mut name = String::from_str(series);
    name.append("_");
    name.append(package);
    let mut description = String::from_str(series);
    description.append(" Resistors in ");
    description.append(package);
    description.append(" package");
    let mut footprint = String::from_str("Resistor_SMD:R_");
    footprint.append(package);
    footprint.append(get_metric_suffix(package));
    let mut pins: Vec<String> = Vec::new();
    pins.push(String::from_str("1"));
    pins.push(String::from_str("2"));
    let mut multipliers: Vec<(String, u64)> = Vec::new();
    multipliers.push((String::from_str(""), 1));
    multipliers.push((String::from_str("k"), 1000));
    multipliers.push((String::from_str("K"), 1000));
    multipliers.push((String::from_str("M"), 1000000));
    let lib = ResistorLibrary {
        name,
        component_type: String::from_str("resistor"),
        description,
        package: String::from_str(package),
        footprint,
        tolerance: String::from_str(get_tolerance(series)),
        power_rating: String::from_str(get_power_rating(package)),
        series: String::from_str(series),
        pins,
        prefix: String::from_str("R"),
        base_values,
        multipliers,
        methods: LibraryMethods::default(),
    };
    proof {
        assert(lib.name@ =~= series@ + "_"@ + package@);
        assert(lib.description@ =~= series@ + " Resistors in "@ + package@ + " package"@);
        assert(lib.footprint@ =~= "Resistor_SMD:R_"@ + package@ + spec_metric_suffix(package@));
        assert(lib.pins.deep_view() =~~= seq!["1"@, "2"@]);
        assert(lib.multipliers@.map_values(|m: (String, u64)| m.0@) =~~= spec_multiplier_suffixes());
        assert(lib.multipliers@.map_values(|m: (String, u64)| m.1) =~= spec_multiplier_factors());
    }
    Ok(lib)
}

/// A capacitor library descriptor.
#[derive(Clone, Debug)]
pub struct CapacitorLibrary {
    pub name: String,
    pub component_type: String,
    pub description: String,
    pub package: String,
    pub footprint: String,
    pub dielectric: String,
    pub voltage_rating: String,
    pub tolerance: String,
    pub pins: Vec<String>,
    pub prefix: String,
    pub values: Vec<String>,
    /// Value suffixes and the power of ten each scales by.
    pub value_suffixes: Vec<(String, i32)>,
    pub methods: LibraryMethods,
}

/// The standard MLCC capacitor values, from ten picofarads to ten
/// microfarads.
pub open spec fn spec_cap_values() -> Seq<Seq<char>> {
    seq![
        "10pF"@,
        "22pF"@,
        "47pF"@,
        "100pF"@,
        "220pF"@,
        "470pF"@,
        "1nF"@,
        "2.2nF"@,
        "4.7nF"@,
        "10nF"@,
        "22nF"@,
        "47nF"@,
        "100nF"@,
        "220nF"@,
        "470nF"@,
        "1uF"@,
        "2.2uF"@,
        "4.7uF"@,
        "10uF"@,
    ]
}

/// The capacitor value suffixes, each with its power of ten.
pub open spec fn spec_cap_suffix_exponents() -> Seq<int> {
    seq![-12int, -9int, -6int, -6int]
}

/// The suffix spellings, in the same order.
pub open spec fn spec_cap_suffixes() -> Seq<Seq<char>> {
    seq!["pF"@, "nF"@, "uF"@, "\u{b5}F"@]
}

/// Builds the descriptor of one capacitor library.  Capacitor values
/// are a fixed list, so any dielectric and package name is accepted.
pub fn capacitor_library(dielectric: &str, package: &str) -> (lib: CapacitorLibrary)
    ensures
        lib.name@ == dielectric@ + "_"@ + package@,
        lib.component_type@ == "capacitor"@,
        lib.description@ == dielectric@ + " MLCC Capacitors in "@ + package@ + " package"@,
        lib.package@ == package@,
        lib.footprint@ == "Capacitor_SMD:C_"@ + package@ + spec_metric_suffix(package@),
        lib.dielectric@ == dielectric@,
        lib.voltage_rating@ == "16V"@,
        lib.tolerance@ == "10%"@,
        lib.pins.deep_view() == seq!["1"@, "2"@],
        lib.prefix@ == "C"@,
        lib.values.deep_view() == spec_cap_values(),
        lib.value_suffixes@.map_values(|s: (String, i32)| s.0@) == spec_cap_suffixes(),
        lib.value_suffixes@.map_values(|s: (String, i32)| s.1 as int) == spec_cap_suffix_exponents(),
        lib.methods.after_factory.deep_view() == spec_after_factory(),
        lib.methods.after_value.deep_view() == spec_after_value(),
{
    let mut name = String::from_str(dielectric);
    name.append("_");
    name.append(package);
    let mut description = String::from_str(dielectric);
    description.append(" MLCC Capacitors in ");
    description.append(package);
    description.append(" package");
    let mut footprint = String::from_str("Capacitor_SMD:C_");
    footprint.append(package);
    footprint.append(get_metric_suffix(package));
    let mut pins: Vec<String> = Vec::new();
    pins.push(String::from_str("1"));
    pins.push(String::from_str("2"));
    let mut values: Vec<String> = Vec::new();
    values.push(String::from_str("10pF"));
    values.push(String::from_str("22pF"));
    values.push(String::from_str("47pF"));
    values.push(String::from_str("100pF"));
    values.push(String::from_str("220pF"));
    values.push(String::from_str("470pF"));
    values.push(String::from_str("1nF"));
    values.push(String::from_str("2.2nF"));
    values.push(String::from_str("4.7nF"));
    values.push(String::from_str("10nF"));
    values.push(String::from_str("22nF"));
    values.push(String::from_str("47nF"));
    values.push(String::from_str("100nF"));
    values.push(String::from_str("220nF"));
    values.push(String::from_str("470nF"));
    values.push(String::from_str("1uF"));
    values.push(String::from_str("2.2uF"));
    values.push(String::from_str("4.7uF"));
    values.push(String::from_str("10uF"));
    let mut value_suffixes: Vec<(String, i32)> = Vec::new();
    value_suffixes.push((String::from_str("pF"), -12));
    value_suffixes.push((String::from_str("nF"), -9));
    value_suffixes.push((String::from_str("uF"), -6));
    value_suffixes.push((String::from_str("\u{b5}F"), -6));
    let lib = CapacitorLibrary {
        name,
        component_type: String::from_str("capacitor"),
        description,
        package: String::from_str(package),
        footprint,
        dielectric: String::from_str(dielectric),
        voltage_rating: String::from_str("16V"),
        tolerance: String::from_str("10%"),
        pins,
        prefix: String::from_str("C"),
        values,
        value_suffixes,
        methods: LibraryMethods::default(),
    };
    proof {
        assert(lib.name@ =~= dielectric@ + "_"@ + package@);
        assert(lib.description@ =~= dielectric@ + " MLCC Capacitors in "@ + package@ + " package"@);
        assert(lib.footprint@ =~= "Capacitor_SMD:C_"@ + package@ + spec_metric_suffix(package@));
        assert(lib.pins.deep_view() =~~= seq!["1"@, "2"@]);
        assert(lib.values.deep_view() =~~= spec_cap_values());
        assert(lib.value_suffixes@.map_values(|s: (String, i32)| s.0@) =~~= spec_cap_suffixes());
        assert(lib.value_suffixes@.map_values(|s: (String, i32)| s.1 as int)
            =~= spec_cap_suffix_exponents());
    }
    lib
}

} // verus!
