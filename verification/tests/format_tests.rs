//! The canonical value formatter: decade boundaries and stability.

use atlantix_eda::value_format::format_value;

#[test]
fn format_decade_boundaries() {
    let cases: &[(u64, &str)] = &[
        (100, "1.00"),
        (999, "9.99"),
        (1000, "10.0"),
        (9990, "99.9"),
        (10000, "100"),
        (99900, "999"),
        (100000, "1.00K"),
        (999000, "9.99K"),
        (1000000, "10.0K"),
        (9990000, "99.9K"),
        (10000000, "100K"),
        (99900000, "999K"),
        (100000000, "1.00M"),
        (215000000, "2.15M"),
    ];
    for &(c, want) in cases {
        assert_eq!(format_value(c), want, "centi-ohms {}", c);
    }
}

#[test]
fn format_is_stable_under_reinvocation() {
    for &c in &[100u64, 1050, 46400, 100000, 97600000] {
        let a = format_value(c);
        let b = format_value(c);
        assert_eq!(a, b);
    }
}

#[test]
fn format_mid_decade_values() {
    assert_eq!(format_value(464), "4.64");
    assert_eq!(format_value(4640), "46.4");
    assert_eq!(format_value(46400), "464");
    assert_eq!(format_value(464000), "4.64K");
    assert_eq!(format_value(4640000), "46.4K");
    assert_eq!(format_value(46400000), "464K");
}
