//! The Altium CSV backend: header, row counts and row contents.

use atlantix_eda::altium::{altium_header, altium_csv, altium_rows};
use atlantix_eda::record::expand_components;
use atlantix_eda::pipeline::altium_csv_for_package;

fn strings(items: &[&str]) -> Vec<String> {
    items.iter().map(|s| s.to_string()).collect()
}

#[test]
fn header_row_is_byte_identical() {
    assert_eq!(
        altium_header(),
        "Part,Description,Value,Case,Power,Supplier 1,Supplier Part Number 1,Library Path,Library Ref,Footprint Path,Footprint Ref,Company,Comment\r\n"
    );
}

#[test]
fn e24_first_decade_emits_twenty_four_rows() {
    let csv = altium_csv_for_package(24, "0603", &vec![1], &strings(&["Vishay"])).unwrap();
    assert!(csv.starts_with(altium_header()));
    let data_rows = csv.matches("\r\n").count() - 1;
    assert_eq!(data_rows, 24);
}

#[test]
fn records_without_manufacturers_are_skipped() {
    let records = expand_components(24, &strings(&["0603"]), &vec![1], &strings(&[])).unwrap();
    assert_eq!(records.len(), 24);
    assert_eq!(altium_rows(&records).len(), 0);
    let csv = altium_csv(&records);
    assert_eq!(csv, altium_header());
}

#[test]
fn one_data_row_content() {
    let records = expand_components(6, &strings(&["0603"]), &vec![1000], &strings(&["Vishay"]))
        .unwrap();
    let rows = altium_rows(&records);
    assert_eq!(rows.len(), 6);
    assert_eq!(
        rows[0],
        "R0603_1.00K,\"RES SMT 1.00Kohms, 0603, 20%, 1/10W\",1.00K,0603,1/10W,Digikey,541-1.00KCT-ND,Atlantix_R.SchLib,Res1,Atlantix_R.PcbLib,RES0603,Atlantix EDA,=Description\r\n"
    );
}
