//! Mapping from HTTP status codes to the local error taxonomy.

use vstd::prelude::*;

use crate::util::Error;

verus! {

/// The error, if any, that a bare HTTP status code signals.
pub open spec fn status_error(status_code: u16) -> Option<Error> {
    if status_code == 200 {
        None
    } else if status_code == 401 || status_code == 403 {
        Some(Error::Authentication)
    } else if status_code == 429 {
        Some(Error::Throttled)
    } else {
        Some(Error::Network)
    }
}

/// Classifies a bare HTTP status code: 200 is success, 401 and 403 are
/// authentication failures, 429 is throttling, anything else is treated as
/// a transport-level failure.
pub fn status_code_to_error(status_code: u16) -> (r: Option<Error>)
    ensures
        r == status_error(status_code),
{
    if status_code == 200 {
        None
    } else if status_code == 401 || status_code == 403 {
        Some(Error::Authentication)
    } else if status_code == 429 {
        Some(Error::Throttled)
    } else {
        Some(Error::Network)
    }
}

} // verus!
