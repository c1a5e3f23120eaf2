//! The error taxonomy: every way a call through this library can fail.

use vstd::prelude::*;

verus! {

/// The wire field a decode error points at.
#[derive(Debug, Clone, Copy, PartialEq, Eq, Structural)]
pub enum Field {
    Envelope,
    ServiceNo,
    Operator,
    Direction,
    Category,
    OriginCode,
    DestinationCode,
    AmPeakFreq,
    AmOffpeakFreq,
    PmPeakFreq,
    PmOffpeakFreq,
    LoopDesc,
    Link,
    Date,
    BusStopCode,
    VisitNumber,
    Load,
    BusType,
}

/// The wire name of a field, for error reports.
pub open spec fn spec_field_wire_name(f: Field) -> Seq<char> {
    match f {
        Field::Envelope => "value"@,
        Field::ServiceNo => "ServiceNo"@,
        Field::Operator => "Operator"@,
        Field::Direction => "Direction"@,
        Field::Category => "Category"@,
        Field::OriginCode => "OriginCode"@,
        Field::DestinationCode => "DestinationCode"@,
        Field::AmPeakFreq => "AM_Peak_Freq"@,
        Field::AmOffpeakFreq => "AM_Offpeak_Freq"@,
        Field::PmPeakFreq => "PM_Peak_Freq"@,
        Field::PmOffpeakFreq => "PM_Offpeak_Freq"@,
        Field::LoopDesc => "LoopDesc"@,
        Field::Link => "Link"@,
        Field::Date => "Date"@,
        Field::BusStopCode => "BusStopCode"@,
        Field::VisitNumber => "VisitNumber"@,
        Field::Load => "Load"@,
        Field::BusType => "Type"@,
    }
}

impl Field {
    /// The name of the field as it appears on the wire.
    pub fn wire_name(&self) -> (r: &'static str)
        ensures
            r@ == spec_field_wire_name(*self),
    {
        match self {
            Field::Envelope => "value",
            Field::ServiceNo => "ServiceNo",
            Field::Operator => "Operator",
            Field::Direction => "Direction",
            Field::Category => "Category",
            Field::OriginCode => "OriginCode",
            Field::DestinationCode => "DestinationCode",
            Field::AmPeakFreq => "AM_Peak_Freq",
            Field::AmOffpeakFreq => "AM_Offpeak_Freq",
            Field::PmPeakFreq => "PM_Peak_Freq",
            Field::PmOffpeakFreq => "PM_Offpeak_Freq",
            Field::LoopDesc => "LoopDesc",
            Field::Link => "Link",
            Field::Date => "Date",
            Field::BusStopCode => "BusStopCode",
            Field::VisitNumber => "VisitNumber",
            Field::Load => "Load",
            Field::BusType => "Type",
        }
    }
}

/// Why a call failed.
///
/// - `MissingApiKey`: a request builder was asked of a handle whose
///   credential is absent or empty — a configuration error, fatal to the call
///   but not to the handle.
/// - `Transport`: the HTTP round trip itself failed; carried verbatim, never
///   retried here.
/// - `InvalidJson`: the response body is not JSON at all.
/// - `MissingField` / `WrongShape`: the body is JSON but does not have the
///   expected raw shape — a mandatory key is absent, or a value has the wrong
///   JSON type.
/// - `InvalidField`: a string field failed its numeric or interval decoder;
///   carries the field and the offending raw value.
/// - `UnknownEnumVariant`: a closed enumeration met a code outside its table;
///   kept apart from `WrongShape` so a caller can tell "the API introduced a
///   new code" from "the shape is broken".
#[derive(Debug, Clone, PartialEq)]
pub enum LTAError {
    MissingApiKey,
    Transport(String),
    InvalidJson,
    MissingField(Field),
    WrongShape(Field),
    InvalidField(Field, String),
    UnknownEnumVariant(Field, String),
}

} // verus!
