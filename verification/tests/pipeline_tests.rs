//! The pipeline drivers: configuration, previews, descriptors, the
//! attribute lookups, and end-to-end determinism.

use atlantix_eda::LibraryError;
use atlantix_eda::attributes::{get_tolerance, get_power_rating, get_metric_suffix, tolerance,
    tolerance_from_series};
use atlantix_eda::descriptor::{LibraryMethods, resistor_library, capacitor_library};
use atlantix_eda::kicad_footprint::KicadFootprint;
use atlantix_eda::pipeline::{GeneratorConfig, OutputFormat, calculate_component_count,
    altium_csv_for_package, kicad_symbols_for_package};

fn strings(items: &[&str]) -> Vec<String> {
    items.iter().map(|s| s.to_string()).collect()
}

#[test]
fn tolerance_lookups() {
    assert_eq!(get_tolerance("E96"), "1%");
    assert_eq!(get_tolerance("e96"), "1%");
    assert_eq!(get_tolerance("E48"), "2%");
    assert_eq!(get_tolerance("E24"), "5%");
    assert_eq!(get_tolerance("E12"), "10%");
    assert_eq!(get_tolerance("E6"), "20%");
    assert_eq!(get_tolerance("E7"), "1%");
    assert_eq!(tolerance_from_series(192), "0.5%");
    assert_eq!(tolerance_from_series(3), "50%");
    assert_eq!(tolerance_from_series(7), "1%");
    assert_eq!(tolerance(96).unwrap(), "1%");
    assert!(matches!(tolerance(7), Err(LibraryError::UnsupportedSeries)));
}

#[test]
fn power_rating_lookups() {
    assert_eq!(get_power_rating("0201"), "1/20W");
    assert_eq!(get_power_rating("0402"), "1/16W");
    assert_eq!(get_power_rating("0603"), "1/10W");
    assert_eq!(get_power_rating("0805"), "1/8W");
    assert_eq!(get_power_rating("1206"), "1/4W");
    assert_eq!(get_power_rating("1210"), "1/2W");
    assert_eq!(get_power_rating("2010"), "3/4W");
    assert_eq!(get_power_rating("2512"), "1W");
    assert_eq!(get_power_rating("9999"), "1/10W");
}

#[test]
fn metric_suffix_lookups() {
    assert_eq!(get_metric_suffix("0201"), "_0603Metric");
    assert_eq!(get_metric_suffix("0603"), "_1608Metric");
    assert_eq!(get_metric_suffix("2512"), "_6332Metric");
    assert_eq!(get_metric_suffix("9999"), "_Metric");
}

#[test]
fn default_configuration() {
    let c = GeneratorConfig::default();
    assert_eq!(
        c.output_formats,
        vec![OutputFormat::KicadSymbols, OutputFormat::KicadFootprints]
    );
    assert_eq!(c.manufacturers, vec!["Vishay".to_string()]);
    assert_eq!(c.decades, vec![1, 10, 100, 1000, 10000, 100000]);
}

#[test]
fn component_count_preview() {
    assert_eq!(calculate_component_count(96, 3, 1), 96 * 6 * 3);
    assert_eq!(calculate_component_count(24, 1, 2), 24 * 6 * 2);
    // an unlisted series previews as ninety-six values
    assert_eq!(calculate_component_count(7, 1, 1), 96 * 6);
}

#[test]
fn resistor_descriptor_fields() {
    let lib = resistor_library("E24", "0603").unwrap();
    assert_eq!(lib.name, "E24_0603");
    assert_eq!(lib.component_type, "resistor");
    assert_eq!(lib.description, "E24 Resistors in 0603 package");
    assert_eq!(lib.package, "0603");
    assert_eq!(lib.footprint, "Resistor_SMD:R_0603_1608Metric");
    assert_eq!(lib.tolerance, "5%");
    assert_eq!(lib.power_rating, "1/10W");
    assert_eq!(lib.series, "E24");
    assert_eq!(lib.pins, vec!["1".to_string(), "2".to_string()]);
    assert_eq!(lib.prefix, "R");
    assert_eq!(lib.base_values.len(), 24);
    assert_eq!(lib.base_values[0], 100);
    assert_eq!(lib.base_values[23], 910);
    let suffixes: Vec<&str> = lib.multipliers.iter().map(|m| m.0.as_str()).collect();
    assert_eq!(suffixes, vec!["", "k", "K", "M"]);
    let factors: Vec<u64> = lib.multipliers.iter().map(|m| m.1).collect();
    assert_eq!(factors, vec![1, 1000, 1000, 1000000]);
    assert!(matches!(
        resistor_library("E7", "0603"),
        Err(LibraryError::UnsupportedSeries)
    ));
}

#[test]
fn capacitor_descriptor_fields() {
    let lib = capacitor_library("X7R", "0805");
    assert_eq!(lib.name, "X7R_0805");
    assert_eq!(lib.component_type, "capacitor");
    assert_eq!(lib.description, "X7R MLCC Capacitors in 0805 package");
    assert_eq!(lib.footprint, "Capacitor_SMD:C_0805_2012Metric");
    assert_eq!(lib.dielectric, "X7R");
    assert_eq!(lib.voltage_rating, "16V");
    assert_eq!(lib.tolerance, "10%");
    assert_eq!(lib.prefix, "C");
    assert_eq!(lib.values.len(), 19);
    assert_eq!(lib.values[0], "10pF");
    assert_eq!(lib.values[18], "10uF");
    let suffixes: Vec<&str> = lib.value_suffixes.iter().map(|s| s.0.as_str()).collect();
    assert_eq!(suffixes, vec!["pF", "nF", "uF", "\u{b5}F"]);
    let exponents: Vec<i32> = lib.value_suffixes.iter().map(|s| s.1).collect();
    assert_eq!(exponents, vec![-12, -9, -6, -6]);
}

#[test]
fn library_methods_default_lists() {
    let m = LibraryMethods::default();
    assert_eq!(
        m.after_factory,
        vec!["and_value", "at", "located_at", "on_layer", "rotated", "place"]
    );
    assert_eq!(
        m.after_value,
        vec!["at", "located_at", "on_layer", "rotated", "place"]
    );
}

#[test]
fn pipeline_is_deterministic() {
    let decades = vec![1, 10, 100, 1000, 10000, 100000];
    let mfrs = strings(&["Vishay", "KOA"]);
    let csv1 = altium_csv_for_package(24, "0805", &decades, &mfrs).unwrap();
    let csv2 = altium_csv_for_package(24, "0805", &decades, &mfrs).unwrap();
    assert_eq!(csv1, csv2);
    let sym1 = kicad_symbols_for_package(12, "0402", &decades, "american").unwrap();
    let sym2 = kicad_symbols_for_package(12, "0402", &decades, "american").unwrap();
    assert_eq!(sym1, sym2);
    let fp = KicadFootprint::new_smd_resistor("1206").unwrap();
    assert_eq!(
        fp.footprint_text("20200202020202"),
        fp.footprint_text("20200202020202")
    );
}

#[test]
fn unsupported_series_produces_no_output() {
    assert!(matches!(
        altium_csv_for_package(7, "0603", &vec![1], &strings(&["Vishay"])),
        Err(LibraryError::UnsupportedSeries)
    ));
}

#[test]
fn error_kinds_have_messages() {
    assert_eq!(LibraryError::UnsupportedSeries.message(), "unsupported E-series");
    assert_eq!(LibraryError::UnknownPackage.message(), "unknown package code");
}
