//! End-to-end payload decoding: text in, domain records out.

use lta::bus::{decode_bus_services, BusFreq};
use lta::bus_enums::{BusCategory, Operator};
use lta::crowd::decode_passenger_vol;
use lta::error::{Field, LTAError};

const ONE_SERVICE: &str = r#"{"value":[{
    "ServiceNo":"15",
    "Operator":"SBST",
    "Direction":1,
    "Category":"TRUNK",
    "OriginCode":"83139",
    "DestinationCode":"77131",
    "AM_Peak_Freq":"7-10",
    "AM_Offpeak_Freq":"11-15",
    "PM_Peak_Freq":"5",
    "PM_Offpeak_Freq":"-",
    "LoopDesc":null
}]}"#;

#[test]
fn one_record_decodes() {
    let resp = decode_bus_services(ONE_SERVICE).unwrap();
    assert_eq!(resp.value.len(), 1);
    let s = &resp.value[0];
    assert_eq!(s.service_no, "15");
    assert_eq!(s.operator, Operator::SBST);
    assert_eq!(s.no_direction, 1);
    assert_eq!(s.category, BusCategory::Trunk);
    assert_eq!(s.origin_code, 83139);
    assert_eq!(s.dest_code, 77131);
    assert_eq!(s.am_peak_freq, BusFreq::new(7, 10));
    assert_eq!(s.am_offpeak_freq, BusFreq::new(11, 15));
    assert_eq!(s.pm_peak_freq, BusFreq::no_max(5));
    assert_eq!(s.pm_offpeak_freq, BusFreq::no_timing());
    assert_eq!(s.loop_desc, None);
}

#[test]
fn empty_listing_is_empty_not_error() {
    let resp = decode_bus_services(r#"{"value":[]}"#).unwrap();
    assert!(resp.value.is_empty());
}

#[test]
fn decoding_twice_yields_equal_records() {
    let a = decode_bus_services(ONE_SERVICE).unwrap();
    let b = decode_bus_services(ONE_SERVICE).unwrap();
    assert_eq!(a, b);
}

#[test]
fn loop_desc_string_is_kept() {
    let payload = ONE_SERVICE.replace(r#""LoopDesc":null"#, r#""LoopDesc":"Marina Ctr""#);
    let resp = decode_bus_services(&payload).unwrap();
    assert_eq!(resp.value[0].loop_desc.as_deref(), Some("Marina Ctr"));
}

#[test]
fn missing_loop_desc_reads_as_absent() {
    let payload = ONE_SERVICE
        .replace(r#""PM_Offpeak_Freq":"-","#, r#""PM_Offpeak_Freq":"-""#)
        .replace(r#""LoopDesc":null"#, "");
    let resp = decode_bus_services(&payload).unwrap();
    assert_eq!(resp.value[0].loop_desc, None);
}

#[test]
fn bad_numeric_field_names_field_and_value() {
    let payload = ONE_SERVICE.replace(r#""OriginCode":"83139""#, r#""OriginCode":"83139x""#);
    let e = decode_bus_services(&payload).unwrap_err();
    assert_eq!(e, LTAError::InvalidField(Field::OriginCode, "83139x".to_string()));
}

#[test]
fn bad_interval_names_field_and_value() {
    let payload = ONE_SERVICE.replace(r#""AM_Peak_Freq":"7-10""#, r#""AM_Peak_Freq":"abc""#);
    let e = decode_bus_services(&payload).unwrap_err();
    assert_eq!(e, LTAError::InvalidField(Field::AmPeakFreq, "abc".to_string()));
}

#[test]
fn unknown_operator_code_is_unknown_variant() {
    let payload = ONE_SERVICE.replace(r#""Operator":"SBST""#, r#""Operator":"ZZZ""#);
    let e = decode_bus_services(&payload).unwrap_err();
    assert_eq!(e, LTAError::UnknownEnumVariant(Field::Operator, "ZZZ".to_string()));
}

#[test]
fn missing_mandatory_field_is_reported() {
    let payload = ONE_SERVICE.replace(r#""ServiceNo":"15","#, "");
    let e = decode_bus_services(&payload).unwrap_err();
    assert_eq!(e, LTAError::MissingField(Field::ServiceNo));
}

#[test]
fn wrong_field_type_is_shape_error() {
    let payload = ONE_SERVICE.replace(r#""Direction":1"#, r#""Direction":"1""#);
    let e = decode_bus_services(&payload).unwrap_err();
    assert_eq!(e, LTAError::WrongShape(Field::Direction));
}

#[test]
fn non_json_text_is_invalid_json() {
    let e = decode_bus_services("not json at all").unwrap_err();
    assert_eq!(e, LTAError::InvalidJson);
}

#[test]
fn envelope_without_value_key() {
    let e = decode_bus_services(r#"{"Value":[]}"#).unwrap_err();
    assert_eq!(e, LTAError::MissingField(Field::Envelope));
}

#[test]
fn envelope_value_not_an_array() {
    let e = decode_bus_services(r#"{"value":{}}"#).unwrap_err();
    assert_eq!(e, LTAError::WrongShape(Field::Envelope));
}

#[test]
fn bad_second_record_fails_whole_decode() {
    let payload = r#"{"value":[
        {"ServiceNo":"15","Operator":"SBST","Direction":1,"Category":"TRUNK",
         "OriginCode":"83139","DestinationCode":"77131","AM_Peak_Freq":"7-10",
         "AM_Offpeak_Freq":"11-15","PM_Peak_Freq":"5","PM_Offpeak_Freq":"-"},
        {"ServiceNo":"17","Operator":"SBST","Direction":1,"Category":"TRUNK",
         "OriginCode":"oops","DestinationCode":"77131","AM_Peak_Freq":"7-10",
         "AM_Offpeak_Freq":"11-15","PM_Peak_Freq":"5","PM_Offpeak_Freq":"-"}
    ]}"#;
    let e = decode_bus_services(payload).unwrap_err();
    assert_eq!(e, LTAError::InvalidField(Field::OriginCode, "oops".to_string()));
}

#[test]
fn field_wire_names() {
    assert_eq!(Field::OriginCode.wire_name(), "OriginCode");
    assert_eq!(Field::AmPeakFreq.wire_name(), "AM_Peak_Freq");
    assert_eq!(Field::Envelope.wire_name(), "value");
}

#[test]
fn passenger_vol_links_decode() {
    let payload = r#"{"value":[{"Link":"https://example.invalid/a.zip"},
                              {"Link":"https://example.invalid/b.zip"}]}"#;
    let links = decode_passenger_vol(payload).unwrap();
    assert_eq!(links, vec![
        "https://example.invalid/a.zip".to_string(),
        "https://example.invalid/b.zip".to_string(),
    ]);
}

#[test]
fn passenger_vol_empty_listing() {
    let links = decode_passenger_vol(r#"{"value":[]}"#).unwrap();
    assert!(links.is_empty());
}

#[test]
fn passenger_vol_bad_link_is_shape_error() {
    let e = decode_passenger_vol(r#"{"value":[{"Link":7}]}"#).unwrap_err();
    assert_eq!(e, LTAError::WrongShape(Field::Link));
}
