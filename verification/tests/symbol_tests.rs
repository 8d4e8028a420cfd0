//! The KiCad symbol backend: single blocks, manufacturer properties,
//! body styles and whole library files.

use atlantix_eda::kicad_symbol::{KicadSymbol, KicadSymbolLib};
use atlantix_eda::pipeline::kicad_symbols_for_package;
use atlantix_eda::LibraryError;

#[test]
fn plain_symbol_block_is_byte_exact() {
    let sym = KicadSymbol::new(
        "R0603_1.00K".to_string(),
        "1.00K".to_string(),
        "Atlantix_Resistors:R_0603_1608Metric".to_string(),
        "european",
    );
    let expected = "  (symbol \"R0603_1.00K\" (pin_numbers hide) (pin_names (offset 0)) (in_bom yes) (on_board yes)\n    (property \"Reference\" \"R\" (id 0) (at 2.032 0 90)\n      (effects (font (size 1.27 1.27)))\n    )\n    (property \"Value\" \"1.00K\" (id 1) (at 0 0 90)\n      (effects (font (size 1.27 1.27)))\n    )\n    (property \"Footprint\" \"Atlantix_Resistors:R_0603_1608Metric\" (id 2) (at -1.778 0 90)\n      (effects (font (size 1.27 1.27)) hide)\n    )\n    (property \"Datasheet\" \"~\" (id 3) (at 0 0 0)\n      (effects (font (size 1.27 1.27)) hide)\n    )\n    (property \"ki_keywords\" \"R res resistor\" (id 4) (at 0 0 0)\n      (effects (font (size 1.27 1.27)) hide)\n    )\n    (property \"ki_description\" \"Resistor, 1.00K\" (id 5) (at 0 0 0)\n      (effects (font (size 1.27 1.27)) hide)\n    )\n    (property \"ki_fp_filters\" \"R_*\" (id 6) (at 0 0 0)\n      (effects (font (size 1.27 1.27)) hide)\n    )\n    (symbol \"R0603_1.00K_0_1\"\n      (rectangle (start -1.016 -2.54) (end 1.016 2.54)\n        (stroke (width 0.254) (type default) (color 0 0 0 0))\n        (fill (type none))\n      )\n    )\n    (symbol \"R0603_1.00K_1_1\"\n      (pin passive line (at 0 3.81 270) (length 1.27)\n        (name \"~\" (effects (font (size 1.27 1.27))))\n        (number \"1\" (effects (font (size 1.27 1.27))))\n      )\n      (pin passive line (at 0 -3.81 90) (length 1.27)\n        (name \"~\" (effects (font (size 1.27 1.27))))\n        (number \"2\" (effects (font (size 1.27 1.27))))\n      )\n    )\n  )";
    assert_eq!(sym.generate_symbol(), expected);
}

#[test]
fn american_style_draws_the_polyline() {
    let sym = KicadSymbol::new(
        "R0402_4.7".to_string(),
        "4.7".to_string(),
        "FP".to_string(),
        "american",
    );
    let expected = "  (symbol \"R0402_4.7\" (pin_numbers hide) (pin_names (offset 0)) (in_bom yes) (on_board yes)\n    (property \"Reference\" \"R\" (id 0) (at 2.032 0 90)\n      (effects (font (size 1.27 1.27)))\n    )\n    (property \"Value\" \"4.7\" (id 1) (at 0 0 90)\n      (effects (font (size 1.27 1.27)))\n    )\n    (property \"Footprint\" \"FP\" (id 2) (at -1.778 0 90)\n      (effects (font (size 1.27 1.27)) hide)\n    )\n    (property \"Datasheet\" \"~\" (id 3) (at 0 0 0)\n      (effects (font (size 1.27 1.27)) hide)\n    )\n    (property \"ki_keywords\" \"R res resistor\" (id 4) (at 0 0 0)\n      (effects (font (size 1.27 1.27)) hide)\n    )\n    (property \"ki_description\" \"Resistor, 4.7\" (id 5) (at 0 0 0)\n      (effects (font (size 1.27 1.27)) hide)\n    )\n    (property \"ki_fp_filters\" \"R_*\" (id 6) (at 0 0 0)\n      (effects (font (size 1.27 1.27)) hide)\n    )\n    (symbol \"R0402_4.7_0_1\"\n      (polyline\n        (pts\n          (xy 0 -2.54)\n          (xy 0.635 -1.905)\n          (xy -0.635 -0.635)\n          (xy 0.635 0.635)\n          (xy -0.635 1.905)\n          (xy 0 2.54)\n        )\n        (stroke (width 0.254) (type default) (color 0 0 0 0))\n        (fill (type none))\n      )\n    )\n    (symbol \"R0402_4.7_1_1\"\n      (pin passive line (at 0 3.81 270) (length 1.27)\n        (name \"~\" (effects (font (size 1.27 1.27))))\n        (number \"1\" (effects (font (size 1.27 1.27))))\n      )\n      (pin passive line (at 0 -3.81 90) (length 1.27)\n        (name \"~\" (effects (font (size 1.27 1.27))))\n        (number \"2\" (effects (font (size 1.27 1.27))))\n      )\n    )\n  )";
    assert_eq!(sym.generate_symbol(), expected);
}

#[test]
fn unknown_style_falls_back_to_european() {
    let a = KicadSymbol::new("N".to_string(), "1".to_string(), "F".to_string(), "klingon")
        .generate_symbol();
    let b = KicadSymbol::new("N".to_string(), "1".to_string(), "F".to_string(), "european")
        .generate_symbol();
    assert_eq!(a, b);
    assert!(a.contains("(rectangle"));
}

#[test]
fn manufacturer_properties_appear_when_present() {
    let sym = KicadSymbol::new("N".to_string(), "1".to_string(), "F".to_string(), "european")
        .with_manufacturer_info(
            "Vishay".to_string(),
            "CRCW06031K00FKEA".to_string(),
            "Digikey".to_string(),
            "541-1.00KHCT-ND".to_string(),
            "https://www.digikey.com/products/en?keywords=541-1.00KHCT-ND".to_string(),
        );
    let text = sym.generate_symbol();
    assert!(text.contains("(property \"Manufacturer\" \"Vishay\" (id 7)"));
    assert!(text.contains("(property \"MPN\" \"CRCW06031K00FKEA\" (id 8)"));
    assert!(text.contains("(property \"SupplierPN\" \"541-1.00KHCT-ND\" (id 10)"));
}

#[test]
fn empty_library_is_just_the_wrapper() {
    let lib = KicadSymbolLib::new();
    assert_eq!(
        lib.generate_library(),
        "(kicad_symbol_lib (version 20211014) (generator atlantix-eda)\n)\n"
    );
}

#[test]
fn e3_symbol_library_is_byte_exact() {
    let text = kicad_symbols_for_package(3, "0603", &vec![1, 1000], "european").unwrap();
    let expected = "(kicad_symbol_lib (version 20211014) (generator atlantix-eda)\n  (symbol \"R0603_1.00\" (pin_numbers hide) (pin_names (offset 0)) (in_bom yes) (on_board yes)\n    (property \"Reference\" \"R\" (id 0) (at 2.032 0 90)\n      (effects (font (size 1.27 1.27)))\n    )\n    (property \"Value\" \"1.00\" (id 1) (at 0 0 90)\n      (effects (font (size 1.27 1.27)))\n    )\n    (property \"Footprint\" \"Atlantix_Resistors:R_0603_1608Metric\" (id 2) (at -1.778 0 90)\n      (effects (font (size 1.27 1.27)) hide)\n    )\n    (property \"Datasheet\" \"~\" (id 3) (at 0 0 0)\n      (effects (font (size 1.27 1.27)) hide)\n    )\n    (property \"ki_keywords\" \"R res resistor\" (id 4) (at 0 0 0)\n      (effects (font (size 1.27 1.27)) hide)\n    )\n    (property \"ki_description\" \"RES SMT 1.00ohms, 0603, 50%, 1/10W\" (id 5) (at 0 0 0)\n      (effects (font (size 1.27 1.27)) hide)\n    )\n    (property \"ki_fp_filters\" \"R_*\" (id 6) (at 0 0 0)\n      (effects (font (size 1.27 1.27)) hide)\n    )\n    (property \"Manufacturer\" \"Vishay\" (id 7) (at 0 0 0)\n      (effects (font (size 1.27 1.27)) hide)\n    )\n    (property \"MPN\" \"CRCW06031R00FKEA\" (id 8) (at 0 0 0)\n      (effects (font (size 1.27 1.27)) hide)\n    )\n    (property \"Supplier\" \"Digikey\" (id 9) (at 0 0 0)\n      (effects (font (size 1.27 1.27)) hide)\n    )\n    (property \"SupplierPN\" \"541-1HHCT-ND\" (id 10) (at 0 0 0)\n      (effects (font (size 1.27 1.27)) hide)\n    )\n    (property \"SupplierURL\" \"https://www.digikey.com/products/en?keywords=541-1HHCT-ND\" (id 11) (at 0 0 0)\n      (effects (font (size 1.27 1.27)) hide)\n    )\n    (symbol \"R0603_1.00_0_1\"\n      (rectangle (start -1.016 -2.54) (end 1.016 2.54)\n        (stroke (width 0.254) (type default) (color 0 0 0 0))\n        (fill (type none))\n      )\n    )\n    (symbol \"R0603_1.00_1_1\"\n      (pin passive line (at 0 3.81 270) (length 1.27)\n        (name \"~\" (effects (font (size 1.27 1.27))))\n        (number \"1\" (effects (font (size 1.27 1.27))))\n      )\n      (pin passive line (at 0 -3.81 90) (length 1.27)\n        (name \"~\" (effects (font (size 1.27 1.27))))\n        (number \"2\" (effects (font (size 1.27 1.27))))\n      )\n    )\n  )\n  (symbol \"R0603_2.15\" (pin_numbers hide) (pin_names (offset 0)) (in_bom yes) (on_board yes)\n    (property \"Reference\" \"R\" (id 0) (at 2.032 0 90)\n      (effects (font (size 1.27 1.27)))\n    )\n    (property \"Value\" \"2.15\" (id 1) (at 0 0 90)\n      (effects (font (size 1.27 1.27)))\n    )\n    (property \"Footprint\" \"Atlantix_Resistors:R_0603_1608Metric\" (id 2) (at -1.778 0 90)\n      (effects (font (size 1.27 1.27)) hide)\n    )\n    (property \"Datasheet\" \"~\" (id 3) (at 0 0 0)\n      (effects (font (size 1.27 1.27)) hide)\n    )\n    (property \"ki_keywords\" \"R res resistor\" (id 4) (at 0 0 0)\n      (effects (font (size 1.27 1.27)) hide)\n    )\n    (property \"ki_description\" \"RES SMT 2.15ohms, 0603, 50%, 1/10W\" (id 5) (at 0 0 0)\n      (effects (font (size 1.27 1.27)) hide)\n    )\n    (property \"ki_fp_filters\" \"R_*\" (id 6) (at 0 0 0)\n      (effects (font (size 1.27 1.27)) hide)\n    )\n    (property \"Manufacturer\" \"Vishay\" (id 7) (at 0 0 0)\n      (effects (font (size 1.27 1.27)) hide)\n    )\n    (property \"MPN\" \"CRCW06032R15FKEA\" (id 8) (at 0 0 0)\n      (effects (font (size 1.27 1.27)) hide)\n    )\n    (property \"Supplier\" \"Digikey\" (id 9) (at 0 0 0)\n      (effects (font (size 1.27 1.27)) hide)\n    )\n    (property \"SupplierPN\" \"541-2.15HHCT-ND\" (id 10) (at 0 0 0)\n      (effects (font (size 1.27 1.27)) hide)\n    )\n    (property \"SupplierURL\" \"https://www.digikey.com/products/en?keywords=541-2.15HHCT-ND\" (id 11) (at 0 0 0)\n      (effects (font (size 1.27 1.27)) hide)\n    )\n    (symbol \"R0603_2.15_0_1\"\n      (rectangle (start -1.016 -2.54) (end 1.016 2.54)\n        (stroke (width 0.254) (type default) (color 0 0 0 0))\n        (fill (type none))\n      )\n    )\n    (symbol \"R0603_2.15_1_1\"\n      (pin passive line (at 0 3.81 270) (length 1.27)\n        (name \"~\" (effects (font (size 1.27 1.27))))\n        (number \"1\" (effects (font (size 1.27 1.27))))\n      )\n      (pin passive line (at 0 -3.81 90) (length 1.27)\n        (name \"~\" (effects (font (size 1.27 1.27))))\n        (number \"2\" (effects (font (size 1.27 1.27))))\n      )\n    )\n  )\n  (symbol \"R0603_4.64\" (pin_numbers hide) (pin_names (offset 0)) (in_bom yes) (on_board yes)\n    (property \"Reference\" \"R\" (id 0) (at 2.032 0 90)\n      (effects (font (size 1.27 1.27)))\n    )\n    (property \"Value\" \"4.64\" (id 1) (at 0 0 90)\n      (effects (font (size 1.27 1.27)))\n    )\n    (property \"Footprint\" \"Atlantix_Resistors:R_0603_1608Metric\" (id 2) (at -1.778 0 90)\n      (effects (font (size 1.27 1.27)) hide)\n    )\n    (property \"Datasheet\" \"~\" (id 3) (at 0 0 0)\n      (effects (font (size 1.27 1.27)) hide)\n    )\n    (property \"ki_keywords\" \"R res resistor\" (id 4) (at 0 0 0)\n      (effects (font (size 1.27 1.27)) hide)\n    )\n    (property \"ki_description\" \"RES SMT 4.64ohms, 0603, 50%, 1/10W\" (id 5) (at 0 0 0)\n      (effects (font (size 1.27 1.27)) hide)\n    )\n    (property \"ki_fp_filters\" \"R_*\" (id 6) (at 0 0 0)\n      (effects (font (size 1.27 1.27)) hide)\n    )\n    (property \"Manufacturer\" \"Vishay\" (id 7) (at 0 0 0)\n      (effects (font (size 1.27 1.27)) hide)\n    )\n    (property \"MPN\" \"CRCW06034R64FKEA\" (id 8) (at 0 0 0)\n      (effects (font (size 1.27 1.27)) hide)\n    )\n    (property \"Supplier\" \"Digikey\" (id 9) (at 0 0 0)\n      (effects (font (size 1.27 1.27)) hide)\n    )\n    (property \"SupplierPN\" \"541-4.64HHCT-ND\" (id 10) (at 0 0 0)\n      (effects (font (size 1.27 1.27)) hide)\n    )\n    (property \"SupplierURL\" \"https://www.digikey.com/products/en?keywords=541-4.64HHCT-ND\" (id 11) (at 0 0 0)\n      (effects (font (size 1.27 1.27)) hide)\n    )\n    (symbol \"R0603_4.64_0_1\"\n      (rectangle (start -1.016 -2.54) (end 1.016 2.54)\n        (stroke (width 0.254) (type default) (color 0 0 0 0))\n        (fill (type none))\n      )\n    )\n    (symbol \"R0603_4.64_1_1\"\n      (pin passive line (at 0 3.81 270) (length 1.27)\n        (name \"~\" (effects (font (size 1.27 1.27))))\n        (number \"1\" (effects (font (size 1.27 1.27))))\n      )\n      (pin passive line (at 0 -3.81 90) (length 1.27)\n        (name \"~\" (effects (font (size 1.27 1.27))))\n        (number \"2\" (effects (font (size 1.27 1.27))))\n      )\n    )\n  )\n  (symbol \"R0603_1.00K\" (pin_numbers hide) (pin_names (offset 0)) (in_bom yes) (on_board yes)\n    (property \"Reference\" \"R\" (id 0) (at 2.032 0 90)\n      (effects (font (size 1.27 1.27)))\n    )\n    (property \"Value\" \"1.00K\" (id 1) (at 0 0 90)\n      (effects (font (size 1.27 1.27)))\n    )\n    (property \"Footprint\" \"Atlantix_Resistors:R_0603_1608Metric\" (id 2) (at -1.778 0 90)\n      (effects (font (size 1.27 1.27)) hide)\n    )\n    (property \"Datasheet\" \"~\" (id 3) (at 0 0 0)\n      (effects (font (size 1.27 1.27)) hide)\n    )\n    (property \"ki_keywords\" \"R res resistor\" (id 4) (at 0 0 0)\n      (effects (font (size 1.27 1.27)) hide)\n    )\n    (property \"ki_description\" \"RES SMT 1.00Kohms, 0603, 50%, 1/10W\" (id 5) (at 0 0 0)\n      (effects (font (size 1.27 1.27)) hide)\n    )\n    (property \"ki_fp_filters\" \"R_*\" (id 6) (at 0 0 0)\n      (effects (font (size 1.27 1.27)) hide)\n    )\n    (property \"Manufacturer\" \"Vishay\" (id 7) (at 0 0 0)\n      (effects (font (size 1.27 1.27)) hide)\n    )\n    (property \"MPN\" \"CRCW06031K00FKEA\" (id 8) (at 0 0 0)\n      (effects (font (size 1.27 1.27)) hide)\n    )\n    (property \"Supplier\" \"Digikey\" (id 9) (at 0 0 0)\n      (effects (font (size 1.27 1.27)) hide)\n    )\n    (property \"SupplierPN\" \"541-1.00KHCT-ND\" (id 10) (at 0 0 0)\n      (effects (font (size 1.27 1.27)) hide)\n    )\n    (property \"SupplierURL\" \"https://www.digikey.com/products/en?keywords=541-1.00KHCT-ND\" (id 11) (at 0 0 0)\n      (effects (font (size 1.27 1.27)) hide)\n    )\n    (symbol \"R0603_1.00K_0_1\"\n      (rectangle (start -1.016 -2.54) (end 1.016 2.54)\n        (stroke (width 0.254) (type default) (color 0 0 0 0))\n        (fill (type none))\n      )\n    )\n    (symbol \"R0603_1.00K_1_1\"\n      (pin passive line (at 0 3.81 270) (length 1.27)\n        (name \"~\" (effects (font (size 1.27 1.27))))\n        (number \"1\" (effects (font (size 1.27 1.27))))\n      )\n      (pin passive line (at 0 -3.81 90) (length 1.27)\n        (name \"~\" (effects (font (size 1.27 1.27))))\n        (number \"2\" (effects (font (size 1.27 1.27))))\n      )\n    )\n  )\n  (symbol \"R0603_2.15K\" (pin_numbers hide) (pin_names (offset 0)) (in_bom yes) (on_board yes)\n    (property \"Reference\" \"R\" (id 0) (at 2.032 0 90)\n      (effects (font (size 1.27 1.27)))\n    )\n    (property \"Value\" \"2.15K\" (id 1) (at 0 0 90)\n      (effects (font (size 1.27 1.27)))\n    )\n    (property \"Footprint\" \"Atlantix_Resistors:R_0603_1608Metric\" (id 2) (at -1.778 0 90)\n      (effects (font (size 1.27 1.27)) hide)\n    )\n    (property \"Datasheet\" \"~\" (id 3) (at 0 0 0)\n      (effects (font (size 1.27 1.27)) hide)\n    )\n    (property \"ki_keywords\" \"R res resistor\" (id 4) (at 0 0 0)\n      (effects (font (size 1.27 1.27)) hide)\n    )\n    (property \"ki_description\" \"RES SMT 2.15Kohms, 0603, 50%, 1/10W\" (id 5) (at 0 0 0)\n      (effects (font (size 1.27 1.27)) hide)\n    )\n    (property \"ki_fp_filters\" \"R_*\" (id 6) (at 0 0 0)\n      (effects (font (size 1.27 1.27)) hide)\n    )\n    (property \"Manufacturer\" \"Vishay\" (id 7) (at 0 0 0)\n      (effects (font (size 1.27 1.27)) hide)\n    )\n    (property \"MPN\" \"CRCW06032K15FKEA\" (id 8) (at 0 0 0)\n      (effects (font (size 1.27 1.27)) hide)\n    )\n    (property \"Supplier\" \"Digikey\" (id 9) (at 0 0 0)\n      (effects (font (size 1.27 1.27)) hide)\n    )\n    (property \"SupplierPN\" \"541-2.15KHCT-ND\" (id 10) (at 0 0 0)\n      (effects (font (size 1.27 1.27)) hide)\n    )\n    (property \"SupplierURL\" \"https://www.digikey.com/products/en?keywords=541-2.15KHCT-ND\" (id 11) (at 0 0 0)\n      (effects (font (size 1.27 1.27)) hide)\n    )\n    (symbol \"R0603_2.15K_0_1\"\n      (rectangle (start -1.016 -2.54) (end 1.016 2.54)\n        (stroke (width 0.254) (type default) (color 0 0 0 0))\n        (fill (type none))\n      )\n    )\n    (symbol \"R0603_2.15K_1_1\"\n      (pin passive line (at 0 3.81 270) (length 1.27)\n        (name \"~\" (effects (font (size 1.27 1.27))))\n        (number \"1\" (effects (font (size 1.27 1.27))))\n      )\n      (pin passive line (at 0 -3.81 90) (length 1.27)\n        (name \"~\" (effects (font (size 1.27 1.27))))\n        (number \"2\" (effects (font (size 1.27 1.27))))\n      )\n    )\n  )\n  (symbol \"R0603_4.64K\" (pin_numbers hide) (pin_names (offset 0)) (in_bom yes) (on_board yes)\n    (property \"Reference\" \"R\" (id 0) (at 2.032 0 90)\n      (effects (font (size 1.27 1.27)))\n    )\n    (property \"Value\" \"4.64K\" (id 1) (at 0 0 90)\n      (effects (font (size 1.27 1.27)))\n    )\n    (property \"Footprint\" \"Atlantix_Resistors:R_0603_1608Metric\" (id 2) (at -1.778 0 90)\n      (effects (font (size 1.27 1.27)) hide)\n    )\n    (property \"Datasheet\" \"~\" (id 3) (at 0 0 0)\n      (effects (font (size 1.27 1.27)) hide)\n    )\n    (property \"ki_keywords\" \"R res resistor\" (id 4) (at 0 0 0)\n      (effects (font (size 1.27 1.27)) hide)\n    )\n    (property \"ki_description\" \"RES SMT 4.64Kohms, 0603, 50%, 1/10W\" (id 5) (at 0 0 0)\n      (effects (font (size 1.27 1.27)) hide)\n    )\n    (property \"ki_fp_filters\" \"R_*\" (id 6) (at 0 0 0)\n      (effects (font (size 1.27 1.27)) hide)\n    )\n    (property \"Manufacturer\" \"Vishay\" (id 7) (at 0 0 0)\n      (effects (font (size 1.27 1.27)) hide)\n    )\n    (property \"MPN\" \"CRCW06034K64FKEA\" (id 8) (at 0 0 0)\n      (effects (font (size 1.27 1.27)) hide)\n    )\n    (property \"Supplier\" \"Digikey\" (id 9) (at 0 0 0)\n      (effects (font (size 1.27 1.27)) hide)\n    )\n    (property \"SupplierPN\" \"541-4.64KHCT-ND\" (id 10) (at 0 0 0)\n      (effects (font (size 1.27 1.27)) hide)\n    )\n    (property \"SupplierURL\" \"https://www.digikey.com/products/en?keywords=541-4.64KHCT-ND\" (id 11) (at 0 0 0)\n      (effects (font (size 1.27 1.27)) hide)\n    )\n    (symbol \"R0603_4.64K_0_1\"\n      (rectangle (start -1.016 -2.54) (end 1.016 2.54)\n        (stroke (width 0.254) (type default) (color 0 0 0 0))\n        (fill (type none))\n      )\n    )\n    (symbol \"R0603_4.64K_1_1\"\n      (pin passive line (at 0 3.81 270) (length 1.27)\n        (name \"~\" (effects (font (size 1.27 1.27))))\n        (number \"1\" (effects (font (size 1.27 1.27))))\n      )\n      (pin passive line (at 0 -3.81 90) (length 1.27)\n        (name \"~\" (effects (font (size 1.27 1.27))))\n        (number \"2\" (effects (font (size 1.27 1.27))))\n      )\n    )\n  )\n)\n";
    assert_eq!(text, expected);
}

#[test]
fn symbol_library_rejects_unsupported_series() {
    assert!(matches!(
        kicad_symbols_for_package(7, "0603", &vec![1], "european"),
        Err(LibraryError::UnsupportedSeries)
    ));
}
