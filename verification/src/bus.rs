//! Bus domain records: dispatch-frequency intervals, service descriptions,
//! and the request planners and payload decoders of the bus endpoints.

use crate::bus_enums::{
    bus_category_from_code, operator_from_code, spec_bus_category_from_code,
    spec_operator_from_code, BusCategory, Operator,
};
use crate::client::{
    listing_req, spec_listing_req, spec_req_builder, LTAClient, ReqBuilder, ReqBuilderView,
};
use crate::decode::{dec_str, parse_u32, spec_parse_u32, u32_to_decimal};
use crate::error::{Field, LTAError};
use crate::json::{
    json_parse, opt_str_field, parse_json, spec_opt_str_field, spec_str_field,
    spec_u32_num_field, spec_u32_str_field, spec_value_items, str_field, u32_num_field,
    u32_str_field, value_items, Json,
};
use vstd::prelude::*;

verus! {

/// A dispatch-frequency window: how many minutes apart buses of a service are
/// dispatched during one period of the day.
///
/// Both bounds are optional: a known minimum with no known maximum is valid,
/// and a window with neither bound means the service is not scheduled during
/// that period. When both bounds are present this layer does not check
/// `min <= max`: the value is passed through as the data source reports it.
#[derive(Debug, Clone, Copy, PartialEq, Eq, Structural)]
pub struct BusFreq {
    pub min: Option<u32>,
    pub max: Option<u32>,
}

impl BusFreq {
    /// A window with both bounds known.
    pub fn new(min: u32, max: u32) -> (r: Self)
        ensures
            r.min == Some(min),
            r.max == Some(max),
    {
        BusFreq { min: Some(min), max: Some(max) }
    }

    /// The all-zero window.
    pub fn default() -> (r: Self)
        ensures
            r.min == Some(0u32),
            r.max == Some(0u32),
    {
        BusFreq::new(0, 0)
    }

    /// A window with a known minimum and no known maximum.
    pub fn no_max(min: u32) -> (r: Self)
        ensures
            r.min == Some(min),
            r.max.is_none(),
    {
        BusFreq { min: Some(min), max: None }
    }

    /// A window for a period during which the service is not scheduled.
    pub fn no_timing() -> (r: Self)
        ensures
            r.min.is_none(),
            r.max.is_none(),
    {
        BusFreq { min: None, max: None }
    }
}

/// The index of the first `'-'` in `s`, or `s.len()` when there is none.
pub open spec fn first_dash(s: Seq<char>) -> int
    decreases s.len(),
{
    if s.len() == 0 {
        0
    } else if s[0] == '-' {
        0
    } else {
        1 + first_dash(s.drop_first())
    }
}

/// A dash at `i` with none before it pins `first_dash` to `i`; no dash at all
/// pins it to the length.
pub proof fn lemma_first_dash_at(s: Seq<char>, i: int)
    requires
        0 <= i <= s.len(),
        i < s.len() ==> s[i] == '-',
        forall|j: int| 0 <= j < i ==> s[j] != '-',
        i == s.len() ==> forall|j: int| 0 <= j < s.len() ==> s[j] != '-',
    ensures
        first_dash(s) == i,
    decreases s.len(),
{
    if s.len() > 0 && s[0] != '-' {
        assert forall|j: int| 0 <= j < i - 1 implies s.drop_first()[j] != '-' by {
            assert(s.drop_first()[j] == s[j + 1]);
        }
        if i == s.len() {
            assert forall|j: int| 0 <= j < s.drop_first().len() implies s.drop_first()[j] != '-' by {
                assert(s.drop_first()[j] == s[j + 1]);
            }
        }
        lemma_first_dash_at(s.drop_first(), i - 1);
    }
}

/// What parsing a dispatch-frequency field yields.
///
/// The grammar has three valid shapes: the sentinel (an empty string or a
/// lone dash) meaning no timing; a bare number meaning a known minimum with no
/// known maximum; and `<min>-<max>` with both bounds. Anything else — a
/// malformed number, a dangling dash, a second dash — is rejected.
pub open spec fn spec_parse_bus_freq(s: Seq<char>) -> Option<BusFreq> {
    let d = first_dash(s);
    if s.len() == 0 || s =~= seq!['-'] {
        Some(BusFreq { min: None, max: None })
    } else if d == s.len() {
        match spec_parse_u32(s) {
            Some(v) => Some(BusFreq { min: Some(v), max: None }),
            None => None,
        }
    } else {
        match (spec_parse_u32(s.take(d)), spec_parse_u32(s.skip(d + 1))) {
            (Some(a), Some(b)) => Some(BusFreq { min: Some(a), max: Some(b) }),
            _ => None,
        }
    }
}

/// Parses a dispatch-frequency field, per `spec_parse_bus_freq`: the sentinel
/// (`""` or `"-"`) gives a window without bounds, a bare number a window with
/// only a minimum, `<min>-<max>` a window with both, and anything else
/// nothing.
pub fn parse_bus_freq(s: &str) -> (r: Option<BusFreq>)
    ensures
        r == spec_parse_bus_freq(s@),
{
    let n = s.unicode_len();
    if n == 0 {
        return Some(BusFreq::no_timing());
    }
    let mut i: usize = 0;
    let mut dash: Option<usize> = None;
    while i < n && dash.is_none()
        invariant
            0 <= i <= n,
            n == s@.len(),
            dash.is_none() ==> forall|j: int| 0 <= j < i ==> s@[j] != '-',
            dash matches Some(d) ==> d < n && s@[d as int] == '-' && (forall|j: int|
                0 <= j < d ==> s@[j] != '-'),
        decreases n - i, (if dash.is_none() { 1int } else { 0int }),
    {
        let c = s.get_char(i);
        if c == '-' {
            dash = Some(i);
        } else {
            i = i + 1;
        }
    }
    match dash {
        None => {
            proof {
                lemma_first_dash_at(s@, n as int);
                assert(!(s@ =~= seq!['-']));
            }
            match parse_u32(s) {
                Some(v) => Some(BusFreq::no_max(v)),
                None => None,
            }
        },
        Some(d) => {
            proof {
                lemma_first_dash_at(s@, d as int);
            }
            if n == 1 {
                proof {
                    assert(s@ =~= seq!['-']);
                }
                return Some(BusFreq::no_timing());
            }
            proof {
                assert(!(s@ =~= seq!['-'])) by {
                    if s@ =~= seq!['-'] {
                        assert(s@.len() == 1);
                    }
                }
            }
            let lo = s.substring_char(0, d);
            let hi = s.substring_char(d + 1, n);
            proof {
                assert(lo@ =~= s@.take(d as int));
                assert(hi@ =~= s@.skip(d as int + 1));
            }
            match (parse_u32(lo), parse_u32(hi)) {
                (Some(a), Some(b)) => Some(BusFreq::new(a, b)),
                _ => None,
            }
        },
    }
}

/// A dispatch-frequency field: a string to run through the interval grammar;
/// a string the grammar rejects fails with an error naming the field and the
/// raw value.
pub open spec fn spec_freq_field(fields: Seq<(String, Json)>, key: Seq<char>, f: Field) -> Result<
    BusFreq,
    LTAError,
> {
    match spec_str_field(fields, key, f) {
        Ok(s) => match spec_parse_bus_freq(s@) {
            Some(b) => Ok(b),
            None => Err(LTAError::InvalidField(f, s)),
        },
        Err(e) => Err(e),
    }
}

/// Reads a dispatch-frequency field, per `spec_freq_field`.
pub fn freq_field(fields: &Vec<(String, Json)>, key: &str, f: Field) -> (r: Result<
    BusFreq,
    LTAError,
>)
    ensures
        r == spec_freq_field(fields@, key@, f),
{
    match str_field(fields, key, f) {
        Ok(s) => match parse_bus_freq(s.as_str()) {
            Some(b) => Ok(b),
            None => Err(LTAError::InvalidField(f, s)),
        },
        Err(e) => Err(e),
    }
}

/// A mandatory operator field: its code must be in the operator table; a
/// code outside it is the unknown-variant error, never a default variant.
pub open spec fn spec_operator_field(
    fields: Seq<(String, Json)>,
    key: Seq<char>,
    f: Field,
) -> Result<Operator, LTAError> {
    match spec_str_field(fields, key, f) {
        Ok(s) => match spec_operator_from_code(s@) {
            Some(v) => Ok(v),
            None => Err(LTAError::UnknownEnumVariant(f, s)),
        },
        Err(e) => Err(e),
    }
}

/// Reads a mandatory operator field, per `spec_operator_field`.
pub fn operator_field(fields: &Vec<(String, Json)>, key: &str, f: Field) -> (r: Result<
    Operator,
    LTAError,
>)
    ensures
        r == spec_operator_field(fields@, key@, f),
{
    match str_field(fields, key, f) {
        Ok(s) => match operator_from_code(s.as_str()) {
            Some(v) => Ok(v),
            None => Err(LTAError::UnknownEnumVariant(f, s)),
        },
        Err(e) => Err(e),
    }
}

/// A mandatory category field, under the same policy as the operator field.
pub open spec fn spec_category_field(
    fields: Seq<(String, Json)>,
    key: Seq<char>,
    f: Field,
) -> Result<BusCategory, LTAError> {
    match spec_str_field(fields, key, f) {
        Ok(s) => match spec_bus_category_from_code(s@) {
            Some(v) => Ok(v),
            None => Err(LTAError::UnknownEnumVariant(f, s)),
        },
        Err(e) => Err(e),
    }
}

/// Reads a mandatory category field, per `spec_category_field`.
pub fn category_field(fields: &Vec<(String, Json)>, key: &str, f: Field) -> (r: Result<
    BusCategory,
    LTAError,
>)
    ensures
        r == spec_category_field(fields@, key@, f),
{
    match str_field(fields, key, f) {
        Ok(s) => match bus_category_from_code(s.as_str()) {
            Some(v) => Ok(v),
            None => Err(LTAError::UnknownEnumVariant(f, s)),
        },
        Err(e) => Err(e),
    }
}

/// One bus service as callers see it: renamed, retyped fields decoded from
/// the raw wire record.
#[derive(Debug, Clone, PartialEq)]
pub struct BusService {
    pub service_no: String,
    pub operator: Operator,
    pub no_direction: u32,
    pub category: BusCategory,
    pub origin_code: u32,
    pub dest_code: u32,
    pub am_peak_freq: BusFreq,
    pub am_offpeak_freq: BusFreq,
    pub pm_peak_freq: BusFreq,
    pub pm_offpeak_freq: BusFreq,
    pub loop_desc: Option<String>,
}

/// What decoding one raw service record yields: each wire field converted by
/// its decoder, or the first field's failure in the order listed here.
pub open spec fn spec_decode_service_fields(fields: Seq<(String, Json)>) -> Result<
    BusService,
    LTAError,
> {
    let service_no = spec_str_field(fields, "ServiceNo"@, Field::ServiceNo);
    let operator = spec_operator_field(fields, "Operator"@, Field::Operator);
    let no_direction = spec_u32_num_field(fields, "Direction"@, Field::Direction);
    let category = spec_category_field(fields, "Category"@, Field::Category);
    let origin_code = spec_u32_str_field(fields, "OriginCode"@, Field::OriginCode);
    let dest_code = spec_u32_str_field(fields, "DestinationCode"@, Field::DestinationCode);
    let am_peak_freq = spec_freq_field(fields, "AM_Peak_Freq"@, Field::AmPeakFreq);
    let am_offpeak_freq = spec_freq_field(fields, "AM_Offpeak_Freq"@, Field::AmOffpeakFreq);
    let pm_peak_freq = spec_freq_field(fields, "PM_Peak_Freq"@, Field::PmPeakFreq);
    let pm_offpeak_freq = spec_freq_field(fields, "PM_Offpeak_Freq"@, Field::PmOffpeakFreq);
    let loop_desc = spec_opt_str_field(fields, "LoopDesc"@, Field::LoopDesc);
    if service_no is Err {
        Err(service_no->Err_0)
    } else if operator is Err {
        Err(operator->Err_0)
    } else if no_direction is Err {
        Err(no_direction->Err_0)
    } else if category is Err {
        Err(category->Err_0)
    } else if origin_code is Err {
        Err(origin_code->Err_0)
    } else if dest_code is Err {
        Err(dest_code->Err_0)
    } else if am_peak_freq is Err {
        Err(am_peak_freq->Err_0)
    } else if am_offpeak_freq is Err {
        Err(am_offpeak_freq->Err_0)
    } else if pm_peak_freq is Err {
        Err(pm_peak_freq->Err_0)
    } else if pm_offpeak_freq is Err {
        Err(pm_offpeak_freq->Err_0)
    } else if loop_desc is Err {
        Err(loop_desc->Err_0)
    } else {
        Ok(BusService {
            service_no: service_no->Ok_0,
            operator: operator->Ok_0,
            no_direction: no_direction->Ok_0,
            category: category->Ok_0,
            origin_code: origin_code->Ok_0,
            dest_code: dest_code->Ok_0,
            am_peak_freq: am_peak_freq->Ok_0,
            am_offpeak_freq: am_offpeak_freq->Ok_0,
            pm_peak_freq: pm_peak_freq->Ok_0,
            pm_offpeak_freq: pm_offpeak_freq->Ok_0,
            loop_desc: loop_desc->Ok_0,
        })
    }
}

/// What decoding one record of the service listing yields: the record must
/// be an object, whose fields decode per `spec_decode_service_fields`.
pub open spec fn spec_decode_service(j: Json) -> Result<BusService, LTAError> {
    match j {
        Json::Obj(fields) => spec_decode_service_fields(fields@),
        _ => Err(LTAError::WrongShape(Field::Envelope)),
    }
}

/// Decodes one raw service record, per `spec_decode_service`.
pub fn decode_service(j: &Json) -> (r: Result<BusService, LTAError>)
    ensures
        r == spec_decode_service(*j),
{
    let fields = match j {
        Json::Obj(fields) => fields,
        _ => {
            return Err(LTAError::WrongShape(Field::Envelope));
        },
    };
    let service_no = match str_field(fields, "ServiceNo", Field::ServiceNo) {
        Ok(v) => v,
        Err(e) => {
            return Err(e);
        },
    };
    let operator = match operator_field(fields, "Operator", Field::Operator) {
        Ok(v) => v,
        Err(e) => {
            return Err(e);
        },
    };
    let no_direction = match u32_num_field(fields, "Direction", Field::Direction) {
        Ok(v) => v,
        Err(e) => {
            return Err(e);
        },
    };
    let category = match category_field(fields, "Category", Field::Category) {
        Ok(v) => v,
        Err(e) => {
            return Err(e);
        },
    };
    let origin_code = match u32_str_field(fields, "OriginCode", Field::OriginCode) {
        Ok(v) => v,
        Err(e) => {
            return Err(e);
        },
    };
    let dest_code = match u32_str_field(fields, "DestinationCode", Field::DestinationCode) {
        Ok(v) => v,
        Err(e) => {
            return Err(e);
        },
    };
    let am_peak_freq = match freq_field(fields, "AM_Peak_Freq", Field::AmPeakFreq) {
        Ok(v) => v,
        Err(e) => {
            return Err(e);
        },
    };
    let am_offpeak_freq = match freq_field(fields, "AM_Offpeak_Freq", Field::AmOffpeakFreq) {
        Ok(v) => v,
        Err(e) => {
            return Err(e);
        },
    };
    let pm_peak_freq = match freq_field(fields, "PM_Peak_Freq", Field::PmPeakFreq) {
        Ok(v) => v,
        Err(e) => {
            return Err(e);
        },
    };
    let pm_offpeak_freq = match freq_field(fields, "PM_Offpeak_Freq", Field::PmOffpeakFreq) {
        Ok(v) => v,
        Err(e) => {
            return Err(e);
        },
    };
    let loop_desc = match opt_str_field(fields, "LoopDesc", Field::LoopDesc) {
        Ok(v) => v,
        Err(e) => {
            return Err(e);
        },
    };
    Ok(BusService {
        service_no,
        operator,
        no_direction,
        category,
        origin_code,
        dest_code,
        am_peak_freq,
        am_offpeak_freq,
        pm_peak_freq,
        pm_offpeak_freq,
        loop_desc,
    })
}

/// What decoding the record sequence of a listing yields: every record
/// decoded, in order — or the first failure, so that a malformed element
/// fails the whole decode and no partial collection is returned.
pub open spec fn spec_decode_services(items: Seq<Json>) -> Result<Seq<BusService>, LTAError>
    decreases items.len(),
{
    if items.len() == 0 {
        Ok(Seq::empty())
    } else {
        match spec_decode_service(items[0]) {
            Err(e) => Err(e),
            Ok(b) => match spec_decode_services(items.drop_first()) {
                Err(e) => Err(e),
                Ok(rest) => Ok(seq![b] + rest),
            },
        }
    }
}

/// Decodes every record of a listing, per `spec_decode_services`.
pub fn decode_services(items: &Vec<Json>) -> (r: Result<Vec<BusService>, LTAError>)
    ensures
        r matches Ok(v) ==> spec_decode_services(items@) == Ok::<Seq<BusService>, LTAError>(v@),
        r matches Err(e) ==> spec_decode_services(items@) == Err::<Seq<BusService>, LTAError>(e),
{
    let n = items.len();
    let mut out: Vec<BusService> = Vec::new();
    let mut i: usize = 0;
    proof {
        assert(items@.skip(0) =~= items@);
    }
    while i < n
        invariant
            0 <= i <= n,
            n == items@.len(),
            forall|rest: Seq<BusService>|
                spec_decode_services(items@.skip(i as int)) == Ok::<Seq<BusService>, LTAError>(
                    rest,
                ) ==> spec_decode_services(items@) == Ok::<Seq<BusService>, LTAError>(
                    out@ + rest,
                ),
            forall|e: LTAError|
                spec_decode_services(items@.skip(i as int)) == Err::<Seq<BusService>, LTAError>(
                    e,
                ) ==> spec_decode_services(items@) == Err::<Seq<BusService>, LTAError>(e),
        decreases n - i,
    {
        proof {
            assert(items@.skip(i as int)[0] == items@[i as int]);
            assert(items@.skip(i as int).drop_first() =~= items@.skip(i as int + 1));
        }
        match decode_service(&items[i]) {
            Err(e) => {
                return Err(e);
            },
            Ok(b) => {
                let ghost old_out = out@;
                out.push(b);
                proof {
                    assert forall|rest: Seq<BusService>|
                        spec_decode_services(items@.skip(i as int + 1)) == Ok::<
                            Seq<BusService>,
                            LTAError,
                        >(rest) implies spec_decode_services(items@) == Ok::<
                        Seq<BusService>,
                        LTAError,
                    >(out@ + rest) by {
                        assert(old_out + (seq![b] + rest) =~= out@ + rest);
                    }
                }
            },
        }
        i = i + 1;
    }
    proof {
        assert(items@.skip(n as int).len() == 0);
        assert(out@ + Seq::<BusService>::empty() =~= out@);
    }
    Ok(out)
}

/// The raw wire envelope of the service listing, already converted: the
/// records under the envelope's `value` key.
#[derive(Debug, Clone, PartialEq)]
pub struct BusServiceResp {
    pub value: Vec<BusService>,
}

/// What decoding a whole service-listing payload yields: the text must parse
/// as JSON, the envelope must carry its record array, and every record must
/// decode. Each failure keeps its own error: text that is not JSON, a broken
/// envelope, and a bad field are told apart.
pub open spec fn spec_decode_bus_services_payload(s: Seq<char>) -> Result<
    Seq<BusService>,
    LTAError,
> {
    match json_parse(s) {
        None => Err(LTAError::InvalidJson),
        Some(j) => match spec_value_items(j) {
            Ok(items) => spec_decode_services(items),
            Err(e) => Err(e),
        },
    }
}

/// Decodes a service-listing response body, per
/// `spec_decode_bus_services_payload`. An empty `value` array decodes to an
/// empty collection, not an error; a malformed record fails the whole call.
pub fn decode_bus_services(payload: &str) -> (r: Result<BusServiceResp, LTAError>)
    ensures
        r matches Ok(resp) ==> spec_decode_bus_services_payload(payload@) == Ok::<
            Seq<BusService>,
            LTAError,
        >(resp.value@),
        r matches Err(e) ==> spec_decode_bus_services_payload(payload@) == Err::<
            Seq<BusService>,
            LTAError,
        >(e),
{
    match parse_json(payload) {
        None => Err(LTAError::InvalidJson),
        Some(j) => match value_items(&j) {
            Err(e) => Err(e),
            Ok(items) => match decode_services(items) {
                Ok(v) => Ok(BusServiceResp { value: v }),
                Err(e) => Err(e),
            },
        },
    }
}

pub const BUS_ARRIVAL_URL: &'static str =
    "http://datamall2.mytransport.sg/ltaodataservice/BusArrivalv2";

pub const BUS_SERVICES_URL: &'static str =
    "http://datamall2.mytransport.sg/ltaodataservice/BusServices";

pub const BUS_ROUTES_URL: &'static str =
    "http://datamall2.mytransport.sg/ltaodataservice/BusRoutes";

pub const BUS_STOPS_URL: &'static str = "http://datamall2.mytransport.sg/ltaodataservice/BusStops";

/// The query of an arrival lookup: the stop code, and the service number
/// when one is given.
pub open spec fn spec_arrival_query(code: u32, sn: Option<Seq<char>>) -> Seq<
    (Seq<char>, Seq<char>),
> {
    match sn {
        Some(s) => seq![("BusStopCode"@, dec_str(code as nat)), ("ServiceNo"@, s)],
        None => seq![("BusStopCode"@, dec_str(code as nat))],
    }
}

/// The request of an arrival lookup: the authenticated base request for the
/// arrival endpoint, carrying `spec_arrival_query`.
pub open spec fn spec_arrival_req(
    c: Option<Seq<char>>,
    code: u32,
    sn: Option<Seq<char>>,
) -> Result<ReqBuilderView, LTAError> {
    match spec_req_builder(c, BUS_ARRIVAL_URL@) {
        Ok(b) => Ok(ReqBuilderView {
            url: b.url,
            headers: b.headers,
            query: spec_arrival_query(code, sn),
        }),
        Err(e) => Err(e),
    }
}

/// The view of an optional service-number argument.
pub open spec fn spec_opt_str(s: Option<&str>) -> Option<Seq<char>> {
    match s {
        Some(s) => Some(s@),
        None => None,
    }
}

/// The bus endpoints: planners that lay out each outbound request, and the
/// decoder of the service listing above.
pub struct Bus;

impl Bus {
    /// Plans the arrival lookup for a stop, optionally narrowed to one
    /// service.
    pub fn arrival_req(client: &LTAClient, bus_stop_code: u32, service_no: Option<&str>) -> (r:
        Result<ReqBuilder, LTAError>)
        ensures
            r matches Ok(rb) ==> spec_arrival_req(client@, bus_stop_code, spec_opt_str(service_no))
                == Ok::<ReqBuilderView, LTAError>(rb@),
            r matches Err(e) ==> spec_arrival_req(
                client@,
                bus_stop_code,
                spec_opt_str(service_no),
            ) == Err::<ReqBuilderView, LTAError>(e),
    {
        match client.get_req_builder(BUS_ARRIVAL_URL) {
            Err(e) => Err(e),
            Ok(rb) => {
                let rb = rb.add_query("BusStopCode", u32_to_decimal(bus_stop_code));
                match service_no {
                    Some(s) => {
                        let out = rb.add_query("ServiceNo", s.to_owned());
                        proof {
                            assert(out@ =~= spec_arrival_req(
                                client@,
                                bus_stop_code,
                                spec_opt_str(service_no),
                            )->Ok_0);
                        }
                        Ok(out)
                    },
                    None => {
                        proof {
                            assert(rb@ =~= spec_arrival_req(
                                client@,
                                bus_stop_code,
                                spec_opt_str(service_no),
                            )->Ok_0);
                        }
                        Ok(rb)
                    },
                }
            },
        }
    }

    /// Plans the paginated service listing.
    pub fn bus_services_req(client: &LTAClient, skip: Option<u32>) -> (r: Result<
        ReqBuilder,
        LTAError,
    >)
        ensures
            r matches Ok(rb) ==> spec_listing_req(client@, BUS_SERVICES_URL@, skip) == Ok::<
                ReqBuilderView,
                LTAError,
            >(rb@),
            r matches Err(e) ==> spec_listing_req(client@, BUS_SERVICES_URL@, skip) == Err::<
                ReqBuilderView,
                LTAError,
            >(e),
    {
        listing_req(client, BUS_SERVICES_URL, skip)
    }

    /// Plans the paginated route listing.
    pub fn bus_routes_req(client: &LTAClient, skip: Option<u32>) -> (r: Result<
        ReqBuilder,
        LTAError,
    >)
        ensures
            r matches Ok(rb) ==> spec_listing_req(client@, BUS_ROUTES_URL@, skip) == Ok::<
                ReqBuilderView,
                LTAError,
            >(rb@),
            r matches Err(e) ==> spec_listing_req(client@, BUS_ROUTES_URL@, skip) == Err::<
                ReqBuilderView,
                LTAError,
            >(e),
    {
        listing_req(client, BUS_ROUTES_URL, skip)
    }

    /// Plans the paginated stop listing.
    pub fn bus_stops_req(client: &LTAClient, skip: Option<u32>) -> (r: Result<
        ReqBuilder,
        LTAError,
    >)
        ensures
            r matches Ok(rb) ==> spec_listing_req(client@, BUS_STOPS_URL@, skip) == Ok::<
                ReqBuilderView,
                LTAError,
            >(rb@),
            r matches Err(e) ==> spec_listing_req(client@, BUS_STOPS_URL@, skip) == Err::<
                ReqBuilderView,
                LTAError,
            >(e),
    {
        listing_req(client, BUS_STOPS_URL, skip)
    }
}

/// Decoding is a function of the payload text alone: any two decodes of the
/// same payload yield structurally equal results — same records in the same
/// order, or the same error.
pub proof fn lemma_decode_repeatable(
    s: Seq<char>,
    r1: Result<Seq<BusService>, LTAError>,
    r2: Result<Seq<BusService>, LTAError>,
)
    requires
        r1 == spec_decode_bus_services_payload(s),
        r2 == spec_decode_bus_services_payload(s),
    ensures
        r1 == r2,
{
}

} // verus!
