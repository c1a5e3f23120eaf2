//! Passenger-volume endpoints: choosing the resource URL, shaping the
//! date-filtered or paginated request, and decoding the returned download
//! links.

use crate::client::{
    listing_req, spec_listing_req, spec_req_builder, LTAClient, ReqBuilder, ReqBuilderView,
};
use crate::decode::{dec_str, u32_to_decimal};
use crate::error::{Field, LTAError};
use crate::json::{parse_json, spec_str_field, spec_value_items, str_field, value_items,
    json_parse, Json};
use vstd::prelude::*;

verus! {

pub const VOL_BY_BUS_STOPS_URL: &'static str =
    "http://datamall2.mytransport.sg/ltaodataservice/PV/Bus";

pub const VOL_BY_OD_BUS_STOPS_URL: &'static str =
    "http://datamall2.mytransport.sg/ltaodataservice/PV/ODBus";

pub const VOL_BY_TRAIN_URL: &'static str =
    "http://datamall2.mytransport.sg/ltaodataservice/PV/Train";

pub const VOL_BY_OD_TRAIN_URL: &'static str =
    "http://datamall2.mytransport.sg/ltaodataservice/PV/ODTrain";

/// Which passenger-volume statistic is asked for.
#[derive(Debug, Clone, Copy, PartialEq, Eq, Structural)]
pub enum VolType {
    BusStops,
    OdBusStop,
    Train,
    OdTrain,
}

/// The resource URL of a passenger-volume statistic.
pub open spec fn spec_vol_url(v: VolType) -> Seq<char> {
    match v {
        VolType::BusStops => VOL_BY_BUS_STOPS_URL@,
        VolType::OdBusStop => VOL_BY_OD_BUS_STOPS_URL@,
        VolType::Train => VOL_BY_TRAIN_URL@,
        VolType::OdTrain => VOL_BY_OD_TRAIN_URL@,
    }
}

/// The resource URL of a passenger-volume statistic.
pub fn vol_url(v: VolType) -> (r: &'static str)
    ensures
        r@ == spec_vol_url(v),
{
    match v {
        VolType::BusStops => VOL_BY_BUS_STOPS_URL,
        VolType::OdBusStop => VOL_BY_OD_BUS_STOPS_URL,
        VolType::Train => VOL_BY_TRAIN_URL,
        VolType::OdTrain => VOL_BY_OD_TRAIN_URL,
    }
}

/// A statistics month, held as plain year and month numbers. The upstream
/// date filter wants only the month, formatted as year then zero-padded
/// month.
#[derive(Debug, Clone, Copy, PartialEq, Eq, Structural)]
pub struct DateYm {
    pub year: u32,
    pub month: u32,
}

impl DateYm {
    /// A calendar month a date filter can be formatted from: a four-digit
    /// year and a real month.
    pub open spec fn wf(self) -> bool {
        1000 <= self.year <= 9999 && 1 <= self.month <= 12
    }
}

/// The wire form of a month filter: the year's four digits, then the month,
/// zero-padded to two digits.
pub open spec fn spec_format_ym(d: DateYm) -> Seq<char> {
    dec_str(d.year as nat) + (if d.month < 10 {
        seq!['0']
    } else {
        Seq::empty()
    }) + dec_str(d.month as nat)
}

/// Formats a month filter, per `spec_format_ym`.
pub fn format_ym(d: DateYm) -> (r: String)
    requires
        d.wf(),
    ensures
        r@ == spec_format_ym(d),
{
    let mut s = u32_to_decimal(d.year);
    if d.month < 10 {
        s.append("0");
        proof {
            reveal_strlit("0");
            assert("0"@ =~= seq!['0']);
        }
    }
    let m = u32_to_decimal(d.month);
    s.append(m.as_str());
    proof {
        assert(s@ =~= spec_format_ym(d));
    }
    s
}

/// The request of a passenger-volume call: with a month filter, the
/// authenticated request carrying only the formatted date; without one, the
/// paginated listing request with the page offset.
pub open spec fn spec_passenger_vol_req(
    c: Option<Seq<char>>,
    v: VolType,
    date: Option<DateYm>,
    skip: Option<u32>,
) -> Result<ReqBuilderView, LTAError> {
    match date {
        Some(d) => match spec_req_builder(c, spec_vol_url(v)) {
            Ok(b) => Ok(ReqBuilderView {
                url: b.url,
                headers: b.headers,
                query: seq![("Date"@, spec_format_ym(d))],
            }),
            Err(e) => Err(e),
        },
        None => spec_listing_req(c, spec_vol_url(v), skip),
    }
}

/// Plans a passenger-volume call, per `spec_passenger_vol_req`: the date
/// filter, when given, replaces pagination.
pub fn passenger_vol_req(
    client: &LTAClient,
    vol_type: VolType,
    date: Option<DateYm>,
    skip: Option<u32>,
) -> (r: Result<ReqBuilder, LTAError>)
    requires
        date matches Some(d) ==> d.wf(),
    ensures
        r matches Ok(rb) ==> spec_passenger_vol_req(client@, vol_type, date, skip) == Ok::<
            ReqBuilderView,
            LTAError,
        >(rb@),
        r matches Err(e) ==> spec_passenger_vol_req(client@, vol_type, date, skip) == Err::<
            ReqBuilderView,
            LTAError,
        >(e),
{
    let url = vol_url(vol_type);
    match date {
        Some(d) => match client.get_req_builder(url) {
            Err(e) => Err(e),
            Ok(rb) => {
                let out = rb.add_query("Date", format_ym(d));
                proof {
                    assert(out@ =~= spec_passenger_vol_req(client@, vol_type, date, skip)->Ok_0);
                }
                Ok(out)
            },
        },
        None => listing_req(client, url, skip),
    }
}

/// What decoding one volume record yields: the download link under its
/// `Link` key.
pub open spec fn spec_decode_link(j: Json) -> Result<String, LTAError> {
    match j {
        Json::Obj(fields) => spec_str_field(fields@, "Link"@, Field::Link),
        _ => Err(LTAError::WrongShape(Field::Link)),
    }
}

/// Decodes one volume record, per `spec_decode_link`.
pub fn decode_link(j: &Json) -> (r: Result<String, LTAError>)
    ensures
        r == spec_decode_link(*j),
{
    match j {
        Json::Obj(fields) => str_field(fields, "Link", Field::Link),
        _ => Err(LTAError::WrongShape(Field::Link)),
    }
}

/// What decoding the volume listing's records yields: every link in order,
/// or the first failure.
pub open spec fn spec_decode_links(items: Seq<Json>) -> Result<Seq<String>, LTAError>
    decreases items.len(),
{
    if items.len() == 0 {
        Ok(Seq::empty())
    } else {
        match spec_decode_link(items[0]) {
            Err(e) => Err(e),
            Ok(l) => match spec_decode_links(items.drop_first()) {
                Err(e) => Err(e),
                Ok(rest) => Ok(seq![l] + rest),
            },
        }
    }
}

/// Decodes every volume record, per `spec_decode_links`.
pub fn decode_links(items: &Vec<Json>) -> (r: Result<Vec<String>, LTAError>)
    ensures
        r matches Ok(v) ==> spec_decode_links(items@) == Ok::<Seq<String>, LTAError>(v@),
        r matches Err(e) ==> spec_decode_links(items@) == Err::<Seq<String>, LTAError>(e),
{
    let n = items.len();
    let mut out: Vec<String> = Vec::new();
    let mut i: usize = 0;
    proof {
        assert(items@.skip(0) =~= items@);
    }
    while i < n
        invariant
            0 <= i <= n,
            n == items@.len(),
            forall|rest: Seq<String>|
                spec_decode_links(items@.skip(i as int)) == Ok::<Seq<String>, LTAError>(rest)
                    ==> spec_decode_links(items@) == Ok::<Seq<String>, LTAError>(out@ + rest),
            forall|e: LTAError|
                spec_decode_links(items@.skip(i as int)) == Err::<Seq<String>, LTAError>(e)
                    ==> spec_decode_links(items@) == Err::<Seq<String>, LTAError>(e),
        decreases n - i,
    {
        proof {
            assert(items@.skip(i as int)[0] == items@[i as int]);
            assert(items@.skip(i as int).drop_first() =~= items@.skip(i as int + 1));
        }
        match decode_link(&items[i]) {
            Err(e) => {
                return Err(e);
            },
            Ok(l) => {
                let ghost old_out = out@;
                out.push(l);
                proof {
                    assert forall|rest: Seq<String>|
                        spec_decode_links(items@.skip(i as int + 1)) == Ok::<Seq<String>, LTAError>(
                            rest,
                        ) implies spec_decode_links(items@) == Ok::<Seq<String>, LTAError>(
                        out@ + rest,
                    ) by {
                        assert(old_out + (seq![l] + rest) =~= out@ + rest);
                    }
                }
            },
        }
        i = i + 1;
    }
    proof {
        assert(items@.skip(n as int).len() == 0);
        assert(out@ + Seq::<String>::empty() =~= out@);
    }
    Ok(out)
}

/// What decoding a whole passenger-volume payload yields.
pub open spec fn spec_decode_passenger_vol_payload(s: Seq<char>) -> Result<Seq<String>, LTAError> {
    match json_parse(s) {
        None => Err(LTAError::InvalidJson),
        Some(j) => match spec_value_items(j) {
            Ok(items) => spec_decode_links(items),
            Err(e) => Err(e),
        },
    }
}

/// Decodes a passenger-volume response body into its download links, per
/// `spec_decode_passenger_vol_payload`.
pub fn decode_passenger_vol(payload: &str) -> (r: Result<Vec<String>, LTAError>)
    ensures
        r matches Ok(links) ==> spec_decode_passenger_vol_payload(payload@) == Ok::<
            Seq<String>,
            LTAError,
        >(links@),
        r matches Err(e) ==> spec_decode_passenger_vol_payload(payload@) == Err::<
            Seq<String>,
            LTAError,
        >(e),
{
    match parse_json(payload) {
        None => Err(LTAError::InvalidJson),
        Some(j) => match value_items(&j) {
            Err(e) => Err(e),
            Ok(items) => decode_links(items),
        },
    }
}

} // verus!
