//! The demonstration endpoint's computation: it greets, exposes the
//! request's correlation identifier, and answers with status 404. The
//! surrounding route plumbing and the serialization of the payload are
//! the host's business.

use vstd::prelude::*;
use vstd::string::StringExecFns;
use crate::spans::RequestId;

verus! {

/// The payload the demonstration endpoint answers with.
pub struct OutputData {
    pub message: String,
    pub request_id: String,
}

/// Compute the demonstration endpoint's answer: the status it responds
/// with and the payload carrying the request's correlation identifier.
pub fn abc(request_id: RequestId) -> (r: (u16, OutputData))
    ensures
        r.0 == 404,
        r.1.message@ == "Hello World"@,
        r.1.request_id@ == request_id.0@,
{
    let data = OutputData { message: String::from_str("Hello World"), request_id: request_id.0 };
    (404, data)
}

} // verus!
