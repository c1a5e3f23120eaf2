//! The field-level decoders on concrete values.

use lta::bus::{parse_bus_freq, BusFreq};
use lta::decode::{parse_u32, str_eq, u32_to_decimal};

#[test]
fn parse_u32_plain_number() {
    assert_eq!(parse_u32("83139"), Some(83139));
}

#[test]
fn parse_u32_trailing_garbage_fails() {
    assert_eq!(parse_u32("83139x"), None);
}

#[test]
fn parse_u32_empty_fails() {
    assert_eq!(parse_u32(""), None);
}

#[test]
fn parse_u32_leading_zeroes() {
    assert_eq!(parse_u32("007"), Some(7));
}

#[test]
fn parse_u32_bounds() {
    assert_eq!(parse_u32("4294967295"), Some(u32::MAX));
    assert_eq!(parse_u32("4294967296"), None);
    assert_eq!(parse_u32("99999999999999999999"), None);
}

#[test]
fn parse_u32_sign_rejected() {
    assert_eq!(parse_u32("+7"), None);
    assert_eq!(parse_u32("-7"), None);
}

#[test]
fn u32_to_decimal_renders() {
    assert_eq!(u32_to_decimal(0), "0");
    assert_eq!(u32_to_decimal(7), "7");
    assert_eq!(u32_to_decimal(83139), "83139");
    assert_eq!(u32_to_decimal(u32::MAX), "4294967295");
}

#[test]
fn render_then_parse_round_trips() {
    for n in [0u32, 1, 9, 10, 83139, 4294967295] {
        assert_eq!(parse_u32(&u32_to_decimal(n)), Some(n));
    }
}

#[test]
fn str_eq_decides() {
    assert!(str_eq("AccountKey", "AccountKey"));
    assert!(!str_eq("AccountKey", "accountkey"));
    assert!(!str_eq("a", "ab"));
    assert!(str_eq("", ""));
}

#[test]
fn freq_range() {
    assert_eq!(parse_bus_freq("7-10"), Some(BusFreq::new(7, 10)));
}

#[test]
fn freq_single_number() {
    assert_eq!(parse_bus_freq("5"), Some(BusFreq::no_max(5)));
}

#[test]
fn freq_sentinel_dash() {
    assert_eq!(parse_bus_freq("-"), Some(BusFreq::no_timing()));
}

#[test]
fn freq_sentinel_empty() {
    assert_eq!(parse_bus_freq(""), Some(BusFreq::no_timing()));
}

#[test]
fn freq_garbage_fails() {
    assert_eq!(parse_bus_freq("abc"), None);
}

#[test]
fn freq_dangling_bounds_fail() {
    assert_eq!(parse_bus_freq("7-"), None);
    assert_eq!(parse_bus_freq("-10"), None);
    assert_eq!(parse_bus_freq("7-10-12"), None);
}

#[test]
fn bus_freq_constructors() {
    assert_eq!(BusFreq::new(3, 8), BusFreq { min: Some(3), max: Some(8) });
    assert_eq!(BusFreq::default(), BusFreq { min: Some(0), max: Some(0) });
    assert_eq!(BusFreq::no_max(4), BusFreq { min: Some(4), max: None });
    assert_eq!(BusFreq::no_timing(), BusFreq { min: None, max: None });
}
