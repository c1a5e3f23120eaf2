//! The train service-alert endpoint: request planning. The alert record's
//! own field layout is endpoint data outside this core.

use crate::client::{spec_req_builder, LTAClient, ReqBuilder, ReqBuilderView};
use crate::error::LTAError;
use vstd::prelude::*;

verus! {

pub const TRAIN_SERVICE_ALERT_URL: &'static str =
    "http://datamall2.mytransport.sg/ltaodataservice/TrainServiceAlerts";

/// Plans the service-alert lookup: the authenticated request for the alert
/// endpoint, with no query parameters.
pub fn train_service_alert_req(client: &LTAClient) -> (r: Result<ReqBuilder, LTAError>)
    ensures
        r matches Ok(rb) ==> spec_req_builder(client@, TRAIN_SERVICE_ALERT_URL@) == Ok::<
            ReqBuilderView,
            LTAError,
        >(rb@),
        r matches Err(e) ==> spec_req_builder(client@, TRAIN_SERVICE_ALERT_URL@) == Err::<
            ReqBuilderView,
            LTAError,
        >(e),
{
    client.get_req_builder(TRAIN_SERVICE_ALERT_URL)
}

} // verus!
