//! The component expansion: record contents, counts and order.

use atlantix_eda::record::expand_components;
use atlantix_eda::LibraryError;

fn strings(items: &[&str]) -> Vec<String> {
    items.iter().map(|s| s.to_string()).collect()
}

#[test]
fn one_kilo_ohm_record_in_0603() {
    let records = expand_components(
        24,
        &strings(&["0603"]),
        &vec![1000],
        &strings(&["Vishay"]),
    )
    .unwrap();
    assert_eq!(records.len(), 24);
    let rec = &records[0];
    assert_eq!(rec.cents, 100000);
    assert_eq!(rec.formatted, "1.00K");
    assert_eq!(rec.package, "0603");
    assert_eq!(rec.tolerance, "5%");
    assert_eq!(rec.power, "1/10W");
    assert_eq!(rec.decade, 1000);
    assert_eq!(rec.description, "RES SMT 1.00Kohms, 0603, 5%, 1/10W");
    assert_eq!(rec.part_number, "R0603_1.00K");
    assert_eq!(rec.manufacturers.len(), 1);
    let part = &rec.manufacturers[0];
    assert_eq!(part.manufacturer, "Vishay");
    assert_eq!(part.mpn, "CRCW06031K00FKEA");
    assert_eq!(part.distributor, "Digikey");
    assert_eq!(part.distributor_pn, "541-1.00KCT-ND");
}

#[test]
fn record_count_covers_the_parameter_space() {
    let records = expand_components(
        12,
        &strings(&["0603", "0805"]),
        &vec![1, 10],
        &strings(&["Vishay"]),
    )
    .unwrap();
    assert_eq!(records.len(), 12 * 2 * 2);
    // package outer loop, decade then base value inner loops
    assert_eq!(records[0].package, "0603");
    assert_eq!(records[0].decade, 1);
    assert_eq!(records[11].formatted, "8.25");
    assert_eq!(records[12].decade, 10);
    assert_eq!(records[12].formatted, "10.0");
    assert_eq!(records[24].package, "0805");
    assert_eq!(records[24].decade, 1);
    assert_eq!(records[24].power, "1/8W");
}

#[test]
fn manufacturer_order_is_preserved() {
    let records = expand_components(
        3,
        &strings(&["0603"]),
        &vec![1000],
        &strings(&["KOA", "Vishay", "Yageo"]),
    )
    .unwrap();
    let rec = &records[0];
    assert_eq!(rec.manufacturers.len(), 3);
    assert_eq!(rec.manufacturers[0].manufacturer, "KOA Speer");
    assert_eq!(rec.manufacturers[0].mpn, "RK73H1JTTD1002F");
    assert_eq!(rec.manufacturers[0].distributor, "Digikey");
    assert_eq!(rec.manufacturers[0].distributor_pn, "RK73H1JTTD1002F-ND");
    assert_eq!(rec.manufacturers[1].manufacturer, "Vishay");
    assert_eq!(rec.manufacturers[2].manufacturer, "Yageo");
    assert_eq!(rec.manufacturers[2].mpn, "RC0603FR-071.00KL");
    assert_eq!(rec.manufacturers[2].distributor, "Mouser");
    assert_eq!(rec.manufacturers[2].distributor_pn, "603-RC0603FR-071.00K");
}

#[test]
fn unknown_manufacturers_contribute_nothing() {
    let records = expand_components(
        3,
        &strings(&["0603"]),
        &vec![1],
        &strings(&["Stackpole"]),
    )
    .unwrap();
    assert_eq!(records.len(), 3);
    assert!(records.iter().all(|r| r.manufacturers.is_empty()));
}

#[test]
fn unsupported_series_expands_to_nothing() {
    let r = expand_components(7, &strings(&["0603"]), &vec![1], &strings(&["Vishay"]));
    assert!(matches!(r, Err(LibraryError::UnsupportedSeries)));
}
