//! The manufacturer part-number encoders, across every code range.

use atlantix_eda::encoders::{generate_vishay_mpn, generate_vishay_digikey_pn, generate_yageo_mpn,
    generate_yageo_mouser_pn, generate_koa_mpn, generate_koa_digikey_pn, format_koa_resistance};

#[test]
fn vishay_and_koa_codes_across_decades() {
    // (centi-ohms, Vishay CRCW part, KOA RK73H part)
    let cases: &[(u64, &str, &str)] = &[
        (100, "CRCW06031R00FKEA", "RK73H1JTTD01R0F"),
        (105, "CRCW06031R05FKEA", "RK73H1JTTD01R1F"),
        (115, "CRCW06031R15FKEA", "RK73H1JTTD01R2F"),
        (215, "CRCW06032R15FKEA", "RK73H1JTTD02R2F"),
        (999, "CRCW06039R99FKEA", "RK73H1JTTD10R0F"),
        (1000, "CRCW060310R0FKEA", "RK73H1JTTD1000F"),
        (1050, "CRCW060310R0FKEA", "RK73H1JTTD1050F"),
        (1150, "CRCW060312R0FKEA", "RK73H1JTTD1150F"),
        (4640, "CRCW060346R0FKEA", "RK73H1JTTD4640F"),
        (21500, "CRCW0603215RFKEA", "RK73H1JTTD2151F"),
        (100000, "CRCW06031K00FKEA", "RK73H1JTTD1002F"),
        (105000, "CRCW06031K05FKEA", "RK73H1JTTD1052F"),
        (215000, "CRCW06032K15FKEA", "RK73H1JTTD2152F"),
        (999000, "CRCW06039K99FKEA", "RK73H1JTTD9992F"),
        (1000000, "CRCW060310K0FKEA", "RK73H1JTTD1003F"),
        (2150000, "CRCW060321K0FKEA", "RK73H1JTTD2153F"),
        (9760000, "CRCW060397K0FKEA", "RK73H1JTTD9763F"),
        (10000000, "CRCW0603100K0FKEA", "RK73H1JTTD1004F"),
        (21500000, "CRCW0603215K0FKEA", "RK73H1JTTD2154F"),
    ];
    for &(c, vishay, koa) in cases {
        assert_eq!(generate_vishay_mpn(c, "0603"), vishay, "centi-ohms {}", c);
        assert_eq!(generate_koa_mpn(c, "0603"), koa, "centi-ohms {}", c);
    }
}

#[test]
fn koa_code_digits() {
    assert_eq!(format_koa_resistance(100000), "1002");
    assert_eq!(format_koa_resistance(100), "01R0");
    assert_eq!(format_koa_resistance(105), "01R1");
    assert_eq!(format_koa_resistance(999), "10R0");
    assert_eq!(format_koa_resistance(1000), "1000");
    assert_eq!(format_koa_resistance(21500), "2151");
    assert_eq!(format_koa_resistance(1000000), "1003");
    assert_eq!(format_koa_resistance(100000000), "1005");
}

#[test]
fn koa_part_for_one_kilo_ohm_in_0603() {
    // size code 1J, range code 1002, tolerance letter F
    assert_eq!(generate_koa_mpn(100000, "0603"), "RK73H1JTTD1002F");
    assert_eq!(generate_koa_digikey_pn(100000, "0603"), "RK73H1JTTD1002F-ND");
}

#[test]
fn koa_size_codes_by_package() {
    assert_eq!(generate_koa_mpn(100000, "0402"), "RK73H1ETTD1002F");
    assert_eq!(generate_koa_mpn(100000, "2512"), "RK73H3ETTD1002F");
    // unknown sizes fall back to 1J
    assert_eq!(generate_koa_mpn(100000, "9999"), "RK73H1JTTD1002F");
}

#[test]
fn vishay_package_fallback() {
    assert_eq!(generate_vishay_mpn(100000, "9999"), "CRCW06031K00FKEA");
    assert_eq!(generate_vishay_mpn(100000, "1206"), "CRCW12061K00FKEA");
}

#[test]
fn vishay_megohm_placeholder() {
    // a megohm value renders with an M the code parser does not read
    assert_eq!(generate_vishay_mpn(100000000, "0603"), "CRCW06031R00FKEA");
}

#[test]
fn yageo_parts() {
    assert_eq!(generate_yageo_mpn(100000, "0603"), "RC0603FR-071.00KL");
    assert_eq!(generate_yageo_mpn(464, "0805"), "RC0805FR-074.64L");
    assert_eq!(generate_yageo_mouser_pn("1.00K", "0603"), "603-RC0603FR-071.00K");
}

#[test]
fn distributor_cross_references() {
    assert_eq!(generate_vishay_digikey_pn("1.00K"), "541-1.00KCT-ND");
    assert_eq!(generate_vishay_digikey_pn("464"), "541-464CT-ND");
}
