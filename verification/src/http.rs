//! What to do with the response to a request, given its status.

use vstd::prelude::*;

verus! {

/// Whether a status code reports success: the codes from 200 to 299.
pub open spec fn is_success_code(status: u16) -> bool {
    200 <= status <= 299
}

/// What to do with a response.
#[derive(Clone, Copy, Debug, PartialEq, Eq, Structural)]
pub enum ResponseStep {
    /// Read the body and hand it on.
    ReadBody,
    /// Report the status as an error.
    Fail { status: u16 },
}

/// Decides what to do with a response that has the given status: read its
/// body if the status reports success, and fail with the status otherwise.
pub fn response_step(status: u16) -> (step: ResponseStep)
    ensures
        is_success_code(status) ==> step == ResponseStep::ReadBody,
        !is_success_code(status) ==> step == (ResponseStep::Fail { status }),
{
    if 200 <= status && status <= 299 {
        ResponseStep::ReadBody
    } else {
        ResponseStep::Fail { status }
    }
}

} // verus!
