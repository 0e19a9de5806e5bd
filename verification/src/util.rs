//! The session/transport layer: the error taxonomy, the request jar with its
//! anti-forgery token state machine, pagination, response envelopes, and the
//! verified text helpers the URL builders rest on.

pub mod jar;
pub mod paging;
pub mod responses;
pub mod status_codes;
pub mod text;

use vstd::prelude::*;

use crate::util::responses::RobloxError;
use crate::util::text::cat2;

verus! {

/// The local error taxonomy.  Every failure of the library is one of these
/// values returned to the caller; nothing is fatal.
#[derive(Debug, Clone, PartialEq)]
pub enum Error {
    /// Transport-level failure (DNS, connect, timeout).
    Network,
    /// The response did not match the expected shape.
    JSON,
    /// No credential is configured, or the credential was rejected.
    Authentication,
    /// The remote service asked the client to slow down.
    Throttled,
    /// HTTP 429: too many requests.
    RateLimited,
    /// A pagination limit that the endpoint does not support.
    InvalidPageLimit,
    /// A relationship type that the endpoint does not support.
    InvalidRelationshipType,
    /// A business error reported by the remote service.
    RobloxError(RobloxError),
    /// The anti-forgery token could not be obtained within the retry cap.
    XcsrfToken,
}

/// The user-facing message for each error.
pub open spec fn user_message(err: Error) -> Seq<char> {
    match err {
        Error::Network => "Network error"@,
        Error::JSON => "JSON error"@,
        Error::Authentication => "Authentication error"@,
        Error::Throttled => "Throttled, too many requests"@,
        Error::RateLimited => "Throttled, too many requests"@,
        Error::InvalidPageLimit => "Invalid page limit"@,
        Error::InvalidRelationshipType => "Invalid group relationship type"@,
        Error::RobloxError(e) => "Roblox error: "@ + e.message@,
        Error::XcsrfToken => "Xcsrf token error"@,
    }
}

/// Renders an error as a message fit for showing to a user.
pub fn error_to_user_message(err: Error) -> (r: String)
    ensures
        r@ == user_message(err),
{
    match err {
        Error::Network => "Network error".to_owned(),
        Error::JSON => "JSON error".to_owned(),
        Error::Authentication => "Authentication error".to_owned(),
        Error::Throttled => "Throttled, too many requests".to_owned(),
        Error::RateLimited => "Throttled, too many requests".to_owned(),
        Error::InvalidPageLimit => "Invalid page limit".to_owned(),
        Error::InvalidRelationshipType => "Invalid group relationship type".to_owned(),
        Error::RobloxError(e) => cat2("Roblox error: ", e.message.as_str()),
        Error::XcsrfToken => "Xcsrf token error".to_owned(),
    }
}

} // verus!
