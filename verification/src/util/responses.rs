//! The response envelope shapes the remote service answers with: a bare
//! payload, a `{ "data": ... }` wrapper, or an error wrapper holding a list
//! of coded messages.

use vstd::prelude::*;

verus! {

/// One error record of the remote service's error envelope.
#[derive(Debug, Clone, PartialEq)]
pub struct RobloxError {
    pub code: i64,
    pub message: String,
    pub user_facing_message: Option<String>,
}

/// The error envelope: a non-success response carries a list of error
/// records, of which the local error taxonomy keeps only the first.
#[derive(Debug, Clone, PartialEq)]
pub struct FailedRobloxResponse {
    pub errors: Vec<RobloxError>,
}

/// A response that is either the expected payload or the error envelope.
#[derive(Debug, Clone, PartialEq)]
pub enum RobloxResponse<T> {
    Success(T),
    Failed(FailedRobloxResponse),
}

/// The `{ "data": ... }` wrapper convention.
#[derive(Debug, Clone, PartialEq)]
pub struct DataWrapper<T> {
    pub data: T,
}

} // verus!
