//! The coded-enum tables: every code decodes to its variant, encodes back,
//! and codes outside a table are refused.

use lta::bus_enums::{
    bus_category_code, bus_category_from_code, bus_feature_code, bus_feature_from_code,
    bus_load_code, bus_load_from_code, bus_type_code, bus_type_from_code, operator_code,
    operator_from_code, BusCategory, BusFeature, BusLoad, BusType, Operator,
};

#[test]
fn operator_codes_round_trip() {
    for v in [Operator::SBST, Operator::SMRT, Operator::TTS, Operator::GAS] {
        assert_eq!(operator_from_code(operator_code(v)), Some(v));
    }
}

#[test]
fn operator_unknown_code_is_refused() {
    assert_eq!(operator_from_code("ZZZ"), None);
    assert_eq!(operator_from_code(""), None);
    assert_eq!(operator_from_code("sbst"), None);
}

#[test]
fn bus_type_codes_round_trip() {
    for v in [BusType::SingleDecker, BusType::DoubleDecker, BusType::Bendy] {
        assert_eq!(bus_type_from_code(bus_type_code(v)), Some(v));
    }
    assert_eq!(bus_type_from_code("SD"), Some(BusType::SingleDecker));
}

#[test]
fn bus_type_unknown_code_is_refused() {
    assert_eq!(bus_type_from_code("TD"), None);
}

#[test]
fn bus_load_codes_round_trip() {
    for v in [BusLoad::SeatsAvailable, BusLoad::StandingAvailable, BusLoad::LimitedStanding] {
        assert_eq!(bus_load_from_code(bus_load_code(v)), Some(v));
    }
    assert_eq!(bus_load_from_code("LSD"), Some(BusLoad::LimitedStanding));
}

#[test]
fn bus_load_unknown_code_is_refused() {
    assert_eq!(bus_load_from_code("FULL"), None);
}

#[test]
fn bus_feature_codes_round_trip() {
    assert_eq!(bus_feature_code(BusFeature::WheelChairAccessible), "WAB");
    assert_eq!(bus_feature_from_code("WAB"), Some(BusFeature::WheelChairAccessible));
}

#[test]
fn bus_feature_unknown_code_is_refused() {
    assert_eq!(bus_feature_from_code(""), None);
    assert_eq!(bus_feature_from_code("USB"), None);
}

#[test]
fn bus_category_codes_round_trip() {
    for v in [
        BusCategory::Express,
        BusCategory::Feeder,
        BusCategory::Industrial,
        BusCategory::Townlink,
        BusCategory::Trunk,
        BusCategory::TwoTierFlatFare,
        BusCategory::FlatFee,
        BusCategory::NightService,
        BusCategory::CityLink,
    ] {
        assert_eq!(bus_category_from_code(bus_category_code(v)), Some(v));
    }
    assert_eq!(bus_category_from_code("2 TIER FLAT FARE"), Some(BusCategory::TwoTierFlatFare));
}

#[test]
fn bus_category_unknown_code_is_refused() {
    assert_eq!(bus_category_from_code("SCENIC"), None);
}
