//! Records of the generic request-handling operations.

use vstd::prelude::*;

verus! {

/// Accepts a request by its handle.
pub struct AcceptRequestParams {
    pub request_id: String,
}

/// Rejects a request by its handle, with an optional reason.
pub struct RejectRequestParams {
    pub request_id: String,
    pub reason: Option<String>,
}

} // verus!
