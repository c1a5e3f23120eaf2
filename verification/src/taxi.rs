//! The taxi-availability endpoint: request planning. The position records
//! hold floating-point coordinates, so their decoding stays with the caller.

use crate::client::{listing_req, spec_listing_req, LTAClient, ReqBuilder, ReqBuilderView};
use crate::error::LTAError;
use vstd::prelude::*;

verus! {

pub const TAXI_AVAIL_URL: &'static str =
    "http://datamall2.mytransport.sg/ltaodataservice/Taxi-Availability";

/// Plans the paginated availability listing.
pub fn taxi_avail_req(client: &LTAClient, skip: Option<u32>) -> (r: Result<ReqBuilder, LTAError>)
    ensures
        r matches Ok(rb) ==> spec_listing_req(client@, TAXI_AVAIL_URL@, skip) == Ok::<
            ReqBuilderView,
            LTAError,
        >(rb@),
        r matches Err(e) ==> spec_listing_req(client@, TAXI_AVAIL_URL@, skip) == Err::<
            ReqBuilderView,
            LTAError,
        >(e),
{
    listing_req(client, TAXI_AVAIL_URL, skip)
}

} // verus!
