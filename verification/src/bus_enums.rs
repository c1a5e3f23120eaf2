//! Coded enumerations: closed value sets the API transmits as short string
//! codes.
//!
//! Each table pairs a `*_from_code` decoder with a `*_code` encoder and a
//! proof that every code in the table round-trips to its variant. A code
//! absent from a table decodes to `None`, never to an arbitrary variant; what
//! a `None` means is the calling field's documented policy (the mandatory
//! fields — operator, category — treat it as an unknown-variant decode error,
//! the optional feature field treats an empty code as absence).

use crate::decode::str_eq;
use vstd::prelude::*;

verus! {

/// A bus operator.
#[derive(Debug, Clone, Copy, PartialEq, Eq, Structural)]
pub enum Operator {
    SBST,
    SMRT,
    TTS,
    GAS,
}

/// The wire code of an operator.
pub open spec fn spec_operator_code(v: Operator) -> Seq<char> {
    match v {
        Operator::SBST => "SBST"@,
        Operator::SMRT => "SMRT"@,
        Operator::TTS => "TTS"@,
        Operator::GAS => "GAS"@,
    }
}

/// The operator a wire code stands for, if it is in the table.
pub open spec fn spec_operator_from_code(s: Seq<char>) -> Option<Operator> {
    if s == "SBST"@ {
        Some(Operator::SBST)
    } else if s == "SMRT"@ {
        Some(Operator::SMRT)
    } else if s == "TTS"@ {
        Some(Operator::TTS)
    } else if s == "GAS"@ {
        Some(Operator::GAS)
    } else {
        None
    }
}

/// Decodes an operator code; a code outside the table yields `None`.
pub fn operator_from_code(s: &str) -> (r: Option<Operator>)
    ensures
        r == spec_operator_from_code(s@),
{
    if str_eq(s, "SBST") {
        Some(Operator::SBST)
    } else if str_eq(s, "SMRT") {
        Some(Operator::SMRT)
    } else if str_eq(s, "TTS") {
        Some(Operator::TTS)
    } else if str_eq(s, "GAS") {
        Some(Operator::GAS)
    } else {
        None
    }
}

/// Encodes an operator as its wire code.
pub fn operator_code(v: Operator) -> (r: &'static str)
    ensures
        r@ == spec_operator_code(v),
{
    match v {
        Operator::SBST => "SBST",
        Operator::SMRT => "SMRT",
        Operator::TTS => "TTS",
        Operator::GAS => "GAS",
    }
}

/// Every operator code in the table round-trips to its variant.
pub proof fn lemma_operator_round_trip(v: Operator)
    ensures
        spec_operator_from_code(spec_operator_code(v)) == Some(v),
{
    reveal_strlit("SBST");
    reveal_strlit("SMRT");
    reveal_strlit("TTS");
    reveal_strlit("GAS");
    assert("SBST"@.len() == 4 && "SMRT"@.len() == 4 && "TTS"@.len() == 3 && "GAS"@.len() == 3);
    assert("SMRT"@ != "SBST"@) by {
        assert("SMRT"@[1] == 'M' && "SBST"@[1] == 'B');
    }
    assert("GAS"@ != "TTS"@) by {
        assert("GAS"@[0] == 'G' && "TTS"@[0] == 'T');
    }
}

/// A bus's deck configuration.
#[derive(Debug, Clone, Copy, PartialEq, Eq, Structural)]
pub enum BusType {
    SingleDecker,
    DoubleDecker,
    Bendy,
}

/// The wire code of a bus type.
pub open spec fn spec_bus_type_code(v: BusType) -> Seq<char> {
    match v {
        BusType::SingleDecker => "SD"@,
        BusType::DoubleDecker => "DD"@,
        BusType::Bendy => "BD"@,
    }
}

/// The bus type a wire code stands for, if it is in the table.
pub open spec fn spec_bus_type_from_code(s: Seq<char>) -> Option<BusType> {
    if s == "SD"@ {
        Some(BusType::SingleDecker)
    } else if s == "DD"@ {
        Some(BusType::DoubleDecker)
    } else if s == "BD"@ {
        Some(BusType::Bendy)
    } else {
        None
    }
}

/// Decodes a bus-type code; a code outside the table yields `None`.
pub fn bus_type_from_code(s: &str) -> (r: Option<BusType>)
    ensures
        r == spec_bus_type_from_code(s@),
{
    if str_eq(s, "SD") {
        Some(BusType::SingleDecker)
    } else if str_eq(s, "DD") {
        Some(BusType::DoubleDecker)
    } else if str_eq(s, "BD") {
        Some(BusType::Bendy)
    } else {
        None
    }
}

/// Encodes a bus type as its wire code.
pub fn bus_type_code(v: BusType) -> (r: &'static str)
    ensures
        r@ == spec_bus_type_code(v),
{
    match v {
        BusType::SingleDecker => "SD",
        BusType::DoubleDecker => "DD",
        BusType::Bendy => "BD",
    }
}

/// Every bus-type code in the table round-trips to its variant.
pub proof fn lemma_bus_type_round_trip(v: BusType)
    ensures
        spec_bus_type_from_code(spec_bus_type_code(v)) == Some(v),
{
    reveal_strlit("SD");
    reveal_strlit("DD");
    reveal_strlit("BD");
    assert("DD"@ != "SD"@) by {
        assert("DD"@[0] == 'D' && "SD"@[0] == 'S');
    }
    assert("BD"@ != "SD"@) by {
        assert("BD"@[0] == 'B' && "SD"@[0] == 'S');
    }
    assert("BD"@ != "DD"@) by {
        assert("BD"@[0] == 'B' && "DD"@[0] == 'D');
    }
}

/// How full a bus is.
#[derive(Debug, Clone, Copy, PartialEq, Eq, Structural)]
pub enum BusLoad {
    SeatsAvailable,
    StandingAvailable,
    LimitedStanding,
}

/// The wire code of a load level.
pub open spec fn spec_bus_load_code(v: BusLoad) -> Seq<char> {
    match v {
        BusLoad::SeatsAvailable => "SEA"@,
        BusLoad::StandingAvailable => "SDA"@,
        BusLoad::LimitedStanding => "LSD"@,
    }
}

/// The load level a wire code stands for, if it is in the table.
pub open spec fn spec_bus_load_from_code(s: Seq<char>) -> Option<BusLoad> {
    if s == "SEA"@ {
        Some(BusLoad::SeatsAvailable)
    } else if s == "SDA"@ {
        Some(BusLoad::StandingAvailable)
    } else if s == "LSD"@ {
        Some(BusLoad::LimitedStanding)
    } else {
        None
    }
}

/// Decodes a load-level code; a code outside the table yields `None`.
pub fn bus_load_from_code(s: &str) -> (r: Option<BusLoad>)
    ensures
        r == spec_bus_load_from_code(s@),
{
    if str_eq(s, "SEA") {
        Some(BusLoad::SeatsAvailable)
    } else if str_eq(s, "SDA") {
        Some(BusLoad::StandingAvailable)
    } else if str_eq(s, "LSD") {
        Some(BusLoad::LimitedStanding)
    } else {
        None
    }
}

/// Encodes a load level as its wire code.
pub fn bus_load_code(v: BusLoad) -> (r: &'static str)
    ensures
        r@ == spec_bus_load_code(v),
{
    match v {
        BusLoad::SeatsAvailable => "SEA",
        BusLoad::StandingAvailable => "SDA",
        BusLoad::LimitedStanding => "LSD",
    }
}

/// Every load-level code in the table round-trips to its variant.
pub proof fn lemma_bus_load_round_trip(v: BusLoad)
    ensures
        spec_bus_load_from_code(spec_bus_load_code(v)) == Some(v),
{
    reveal_strlit("SEA");
    reveal_strlit("SDA");
    reveal_strlit("LSD");
    assert("SDA"@ != "SEA"@) by {
        assert("SDA"@[1] == 'D' && "SEA"@[1] == 'E');
    }
    assert("LSD"@ != "SEA"@) by {
        assert("LSD"@[0] == 'L' && "SEA"@[0] == 'S');
    }
    assert("LSD"@ != "SDA"@) by {
        assert("LSD"@[0] == 'L' && "SDA"@[0] == 'S');
    }
}

/// An accessibility feature a bus may carry. The field is optional on the
/// wire: an empty code means the feature is simply absent.
#[derive(Debug, Clone, Copy, PartialEq, Eq, Structural)]
pub enum BusFeature {
    WheelChairAccessible,
}

/// The wire code of a feature.
pub open spec fn spec_bus_feature_code(v: BusFeature) -> Seq<char> {
    match v {
        BusFeature::WheelChairAccessible => "WAB"@,
    }
}

/// The feature a wire code stands for, if it is in the table.
pub open spec fn spec_bus_feature_from_code(s: Seq<char>) -> Option<BusFeature> {
    if s == "WAB"@ {
        Some(BusFeature::WheelChairAccessible)
    } else {
        None
    }
}

/// Decodes a feature code; a code outside the table yields `None`.
pub fn bus_feature_from_code(s: &str) -> (r: Option<BusFeature>)
    ensures
        r == spec_bus_feature_from_code(s@),
{
    if str_eq(s, "WAB") {
        Some(BusFeature::WheelChairAccessible)
    } else {
        None
    }
}

/// Encodes a feature as its wire code.
pub fn bus_feature_code(v: BusFeature) -> (r: &'static str)
    ensures
        r@ == spec_bus_feature_code(v),
{
    match v {
        BusFeature::WheelChairAccessible => "WAB",
    }
}

/// Every feature code in the table round-trips to its variant.
pub proof fn lemma_bus_feature_round_trip(v: BusFeature)
    ensures
        spec_bus_feature_from_code(spec_bus_feature_code(v)) == Some(v),
{
}

/// The category of a bus service.
#[derive(Debug, Clone, Copy, PartialEq, Eq, Structural)]
pub enum BusCategory {
    Express,
    Feeder,
    Industrial,
    Townlink,
    Trunk,
    TwoTierFlatFare,
    FlatFee,
    NightService,
    CityLink,
}

/// The wire code of a category.
pub open spec fn spec_bus_category_code(v: BusCategory) -> Seq<char> {
    match v {
        BusCategory::Express => "EXPRESS"@,
        BusCategory::Feeder => "FEEDER"@,
        BusCategory::Industrial => "INDUSTRIAL"@,
        BusCategory::Townlink => "TOWNLINK"@,
        BusCategory::Trunk => "TRUNK"@,
        BusCategory::TwoTierFlatFare => "2 TIER FLAT FARE"@,
        BusCategory::FlatFee => "FLAT FEE $1.10"@,
        BusCategory::NightService => "NIGHT SERVICE"@,
        BusCategory::CityLink => "CITY_LINK"@,
    }
}

/// The category a wire code stands for, if it is in the table.
pub open spec fn spec_bus_category_from_code(s: Seq<char>) -> Option<BusCategory> {
    if s == "EXPRESS"@ {
        Some(BusCategory::Express)
    } else if s == "FEEDER"@ {
        Some(BusCategory::Feeder)
    } else if s == "INDUSTRIAL"@ {
        Some(BusCategory::Industrial)
    } else if s == "TOWNLINK"@ {
        Some(BusCategory::Townlink)
    } else if s == "TRUNK"@ {
        Some(BusCategory::Trunk)
    } else if s == "2 TIER FLAT FARE"@ {
        Some(BusCategory::TwoTierFlatFare)
    } else if s == "FLAT FEE $1.10"@ {
        Some(BusCategory::FlatFee)
    } else if s == "NIGHT SERVICE"@ {
        Some(BusCategory::NightService)
    } else if s == "CITY_LINK"@ {
        Some(BusCategory::CityLink)
    } else {
        None
    }
}

/// Decodes a category code; a code outside the table yields `None`.
pub fn bus_category_from_code(s: &str) -> (r: Option<BusCategory>)
    ensures
        r == spec_bus_category_from_code(s@),
{
    if str_eq(s, "EXPRESS") {
        Some(BusCategory::Express)
    } else if str_eq(s, "FEEDER") {
        Some(BusCategory::Feeder)
    } else if str_eq(s, "INDUSTRIAL") {
        Some(BusCategory::Industrial)
    } else if str_eq(s, "TOWNLINK") {
        Some(BusCategory::Townlink)
    } else if str_eq(s, "TRUNK") {
        Some(BusCategory::Trunk)
    } else if str_eq(s, "2 TIER FLAT FARE") {
        Some(BusCategory::TwoTierFlatFare)
    } else if str_eq(s, "FLAT FEE $1.10") {
        Some(BusCategory::FlatFee)
    } else if str_eq(s, "NIGHT SERVICE") {
        Some(BusCategory::NightService)
    } else if str_eq(s, "CITY_LINK") {
        Some(BusCategory::CityLink)
    } else {
        None
    }
}

/// Encodes a category as its wire code.
pub fn bus_category_code(v: BusCategory) -> (r: &'static str)
    ensures
        r@ == spec_bus_category_code(v),
{
    match v {
        BusCategory::Express => "EXPRESS",
        BusCategory::Feeder => "FEEDER",
        BusCategory::Industrial => "INDUSTRIAL",
        BusCategory::Townlink => "TOWNLINK",
        BusCategory::Trunk => "TRUNK",
        BusCategory::TwoTierFlatFare => "2 TIER FLAT FARE",
        BusCategory::FlatFee => "FLAT FEE $1.10",
        BusCategory::NightService => "NIGHT SERVICE",
        BusCategory::CityLink => "CITY_LINK",
    }
}

/// Every category code in the table round-trips to its variant. The codes all
/// have distinct lengths, so no two can collide.
pub proof fn lemma_bus_category_round_trip(v: BusCategory)
    ensures
        spec_bus_category_from_code(spec_bus_category_code(v)) == Some(v),
{
    reveal_strlit("EXPRESS");
    reveal_strlit("FEEDER");
    reveal_strlit("INDUSTRIAL");
    reveal_strlit("TOWNLINK");
    reveal_strlit("TRUNK");
    reveal_strlit("2 TIER FLAT FARE");
    reveal_strlit("FLAT FEE $1.10");
    reveal_strlit("NIGHT SERVICE");
    reveal_strlit("CITY_LINK");
    assert("EXPRESS"@.len() == 7 && "FEEDER"@.len() == 6 && "INDUSTRIAL"@.len() == 10
        && "TOWNLINK"@.len() == 8 && "TRUNK"@.len() == 5 && "2 TIER FLAT FARE"@.len() == 16
        && "FLAT FEE $1.10"@.len() == 14 && "NIGHT SERVICE"@.len() == 13
        && "CITY_LINK"@.len() == 9);
}

} // verus!
