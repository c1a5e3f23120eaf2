//! Client-side core for a transit open-data HTTP API: building authenticated
//! requests, composing query parameters, and decoding the JSON payloads the
//! API answers with into typed domain records.
//!
//! The library itself performs no I/O: it produces request descriptions and
//! consumes response bodies as text, so every rule of the pipeline (header
//! placement, page offsets, field decoding, envelope unwrapping) is stated in
//! contracts and proved.

pub mod bus;
pub mod bus_enums;
pub mod client;
pub mod crowd;
pub mod decode;
pub mod error;
pub mod json;
pub mod taxi;
pub mod train;

use vstd::prelude::*;

verus! {

} // verus!
