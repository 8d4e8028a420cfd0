//! The resistor library generator: whole-series CSV text, names and
//! distributor numbers.

use atlantix_eda::resistor::Resistor;
use atlantix_eda::LibraryError;

#[test]
fn new_rejects_unsupported_series() {
    assert!(matches!(
        Resistor::new(7, "0603".to_string()),
        Err(LibraryError::UnsupportedSeries)
    ));
    assert!(Resistor::new(96, "0603".to_string()).is_ok());
}

#[test]
fn fresh_resistor_names_the_priming_value() {
    let mut r = Resistor::new(24, "0402".to_string()).unwrap();
    assert_eq!(r.set_name(), "RES0402_1.00K");
    assert_eq!(r.generate_vishay_mpn(), "CRCW04021K00FKEA");
}

#[test]
fn e6_across_two_decades_is_byte_exact() {
    let mut r = Resistor::new(6, "0603".to_string()).unwrap();
    let first = r.generate(1);
    let both = r.generate(1000);
    assert!(both.starts_with(&first));
    let expected = "RES0603_1.00,\"RES 0603 1.00Ohm 1/10W\",1.00,0603,1/10,Digikey,541-1HHCT-ND,Atlantix_R.SchLib,Res1,Atlantix_R.PcbLib,RES0603,Atlantix EDA, =Description\r\nRES0603_1.47,\"RES 0603 1.47Ohm 1/10W\",1.47,0603,1/10,Digikey,541-1.47HHCT-ND,Atlantix_R.SchLib,Res1,Atlantix_R.PcbLib,RES0603,Atlantix EDA, =Description\r\nRES0603_2.15,\"RES 0603 2.15Ohm 1/10W\",2.15,0603,1/10,Digikey,541-2.15HHCT-ND,Atlantix_R.SchLib,Res1,Atlantix_R.PcbLib,RES0603,Atlantix EDA, =Description\r\nRES0603_3.16,\"RES 0603 3.16Ohm 1/10W\",3.16,0603,1/10,Digikey,541-3.16HHCT-ND,Atlantix_R.SchLib,Res1,Atlantix_R.PcbLib,RES0603,Atlantix EDA, =Description\r\nRES0603_4.64,\"RES 0603 4.64Ohm 1/10W\",4.64,0603,1/10,Digikey,541-4.64HHCT-ND,Atlantix_R.SchLib,Res1,Atlantix_R.PcbLib,RES0603,Atlantix EDA, =Description\r\nRES0603_6.81,\"RES 0603 6.81Ohm 1/10W\",6.81,0603,1/10,Digikey,541-6.81HHCT-ND,Atlantix_R.SchLib,Res1,Atlantix_R.PcbLib,RES0603,Atlantix EDA, =Description\r\nRES0603_1.00K,\"RES 0603 1.00KOhm 1/10W\",1.00K,0603,1/10,Digikey,541-1.00KHCT-ND,Atlantix_R.SchLib,Res1,Atlantix_R.PcbLib,RES0603,Atlantix EDA, =Description\r\nRES0603_1.47K,\"RES 0603 1.47KOhm 1/10W\",1.47K,0603,1/10,Digikey,541-1.47KHCT-ND,Atlantix_R.SchLib,Res1,Atlantix_R.PcbLib,RES0603,Atlantix EDA, =Description\r\nRES0603_2.15K,\"RES 0603 2.15KOhm 1/10W\",2.15K,0603,1/10,Digikey,541-2.15KHCT-ND,Atlantix_R.SchLib,Res1,Atlantix_R.PcbLib,RES0603,Atlantix EDA, =Description\r\nRES0603_3.16K,\"RES 0603 3.16KOhm 1/10W\",3.16K,0603,1/10,Digikey,541-3.16KHCT-ND,Atlantix_R.SchLib,Res1,Atlantix_R.PcbLib,RES0603,Atlantix EDA, =Description\r\nRES0603_4.64K,\"RES 0603 4.64KOhm 1/10W\",4.64K,0603,1/10,Digikey,541-4.64KHCT-ND,Atlantix_R.SchLib,Res1,Atlantix_R.PcbLib,RES0603,Atlantix EDA, =Description\r\nRES0603_6.81K,\"RES 0603 6.81KOhm 1/10W\",6.81K,0603,1/10,Digikey,541-6.81KHCT-ND,Atlantix_R.SchLib,Res1,Atlantix_R.PcbLib,RES0603,Atlantix EDA, =Description\r\n";
    assert_eq!(both, expected);
}

#[test]
fn e12_first_decade_is_byte_exact() {
    let mut r = Resistor::new(12, "0603".to_string()).unwrap();
    let text = r.generate(1);
    let expected = "RES0603_1.00,\"RES 0603 1.00Ohm 1/10W\",1.00,0603,1/10,Digikey,541-1HHCT-ND,Atlantix_R.SchLib,Res1,Atlantix_R.PcbLib,RES0603,Atlantix EDA, =Description\r\nRES0603_1.21,\"RES 0603 1.21Ohm 1/10W\",1.21,0603,1/10,Digikey,541-1.21HHCT-ND,Atlantix_R.SchLib,Res1,Atlantix_R.PcbLib,RES0603,Atlantix EDA, =Description\r\nRES0603_1.47,\"RES 0603 1.47Ohm 1/10W\",1.47,0603,1/10,Digikey,541-1.47HHCT-ND,Atlantix_R.SchLib,Res1,Atlantix_R.PcbLib,RES0603,Atlantix EDA, =Description\r\nRES0603_1.78,\"RES 0603 1.78Ohm 1/10W\",1.78,0603,1/10,Digikey,541-1.78HHCT-ND,Atlantix_R.SchLib,Res1,Atlantix_R.PcbLib,RES0603,Atlantix EDA, =Description\r\nRES0603_2.15,\"RES 0603 2.15Ohm 1/10W\",2.15,0603,1/10,Digikey,541-2.15HHCT-ND,Atlantix_R.SchLib,Res1,Atlantix_R.PcbLib,RES0603,Atlantix EDA, =Description\r\nRES0603_2.61,\"RES 0603 2.61Ohm 1/10W\",2.61,0603,1/10,Digikey,541-2.61HHCT-ND,Atlantix_R.SchLib,Res1,Atlantix_R.PcbLib,RES0603,Atlantix EDA, =Description\r\nRES0603_3.16,\"RES 0603 3.16Ohm 1/10W\",3.16,0603,1/10,Digikey,541-3.16HHCT-ND,Atlantix_R.SchLib,Res1,Atlantix_R.PcbLib,RES0603,Atlantix EDA, =Description\r\nRES0603_3.83,\"RES 0603 3.83Ohm 1/10W\",3.83,0603,1/10,Digikey,541-3.83HHCT-ND,Atlantix_R.SchLib,Res1,Atlantix_R.PcbLib,RES0603,Atlantix EDA, =Description\r\nRES0603_4.64,\"RES 0603 4.64Ohm 1/10W\",4.64,0603,1/10,Digikey,541-4.64HHCT-ND,Atlantix_R.SchLib,Res1,Atlantix_R.PcbLib,RES0603,Atlantix EDA, =Description\r\nRES0603_5.62,\"RES 0603 5.62Ohm 1/10W\",5.62,0603,1/10,Digikey,541-5.62HHCT-ND,Atlantix_R.SchLib,Res1,Atlantix_R.PcbLib,RES0603,Atlantix EDA, =Description\r\nRES0603_6.81,\"RES 0603 6.81Ohm 1/10W\",6.81,0603,1/10,Digikey,541-6.81HHCT-ND,Atlantix_R.SchLib,Res1,Atlantix_R.PcbLib,RES0603,Atlantix EDA, =Description\r\nRES0603_8.25,\"RES 0603 8.25Ohm 1/10W\",8.25,0603,1/10,Digikey,541-8.25HHCT-ND,Atlantix_R.SchLib,Res1,Atlantix_R.PcbLib,RES0603,Atlantix EDA, =Description\r\n";
    assert_eq!(text, expected);
}

#[test]
fn first_decade_distributor_numbers_drop_trailing_zeros() {
    let mut r = Resistor::new(24, "0603".to_string()).unwrap();
    let text = r.generate(1);
    // 7.50 spells as 7.5 in the first decade's distributor number
    assert!(text.contains("541-7.5HHCT-ND"));
    assert!(text.contains("541-1HHCT-ND"));
    // but the display value keeps both decimals
    assert!(text.contains("RES0603_7.50,"));
}

#[test]
fn later_decades_use_the_display_value() {
    let mut r = Resistor::new(12, "1206".to_string()).unwrap();
    let text = r.generate(10000);
    assert!(text.contains("541-10.0KFCT-ND"));
    assert!(text.contains("RES1206_82.5K,"));
}

#[test]
fn unknown_case_uses_placeholder_suffixes() {
    let mut r = Resistor::new(3, "9999".to_string()).unwrap();
    let text = r.generate(1);
    assert!(text.contains("541-1XXXX-ND"));
    let text10 = r.generate(10);
    assert!(text10.contains("541-10.0XXX-ND"));
}

#[test]
fn attribute_helpers_on_the_resistor() {
    let r = Resistor::new(96, "0603".to_string()).unwrap();
    assert_eq!(r.get_imperial_name("0805"), "0805");
    assert_eq!(r.get_metric_name("0805"), "2012Metric");
    assert_eq!(r.get_metric_name("9999"), "UnknownMetric");
    assert_eq!(r.get_tolerance_from_series(96), "1%");
    assert_eq!(r.get_tolerance_from_series(5), "1%");
    assert_eq!(r.get_power_rating_from_package("1218"), "1W");
    assert_eq!(r.get_power_rating_from_package("0603"), "1/10W");
    assert_eq!(r.format_resistance_for_description("1.33K"), "1.33K");
}
