//! The three-way answer that every portal method gives.

use vstd::prelude::*;

verus! {

/// The response code of a successful call.
pub const PORTAL_RESPONSE_SUCCESS: u32 = 0;

/// The response code of a call that the user cancelled.
pub const PORTAL_RESPONSE_CANCELLED: u32 = 1;

/// The response code of a call that ended in any other way.
pub const PORTAL_RESPONSE_OTHER: u32 = 2;

/// The answer to a portal call: a result, a cancellation, or a failure
/// without details.
pub enum PortalResponse<T> {
    /// The call succeeded with a result.
    Success(T),
    /// The user cancelled.
    Cancelled,
    /// The call ended in another way.
    Other,
}

impl<T> PortalResponse<T> {
    /// The code that goes first on the wire.
    pub open spec fn spec_code(&self) -> u32 {
        match self {
            PortalResponse::Success(_) => PORTAL_RESPONSE_SUCCESS,
            PortalResponse::Cancelled => PORTAL_RESPONSE_CANCELLED,
            PortalResponse::Other => PORTAL_RESPONSE_OTHER,
        }
    }

    /// The code that goes first on the wire: 0 for success, 1 for a
    /// cancellation, 2 otherwise.
    pub fn code(&self) -> (code: u32)
        ensures
            code == self.spec_code(),
            code <= 2,
    {
        match self {
            PortalResponse::Success(_) => PORTAL_RESPONSE_SUCCESS,
            PortalResponse::Cancelled => PORTAL_RESPONSE_CANCELLED,
            PortalResponse::Other => PORTAL_RESPONSE_OTHER,
        }
    }

    /// Whether the answer carries a map of results; the other two carry an
    /// empty map.
    pub fn has_payload(&self) -> (full: bool)
        ensures
            full == (self.spec_code() == PORTAL_RESPONSE_SUCCESS),
    {
        match self {
            PortalResponse::Success(_) => true,
            _ => false,
        }
    }
}

} // verus!
