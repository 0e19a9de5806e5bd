//! Display-name validation and update.

use vstd::prelude::*;

use crate::util::jar::{Call, Verb};
use crate::util::status_codes::status_error;
use crate::util::text::{cat3, cat4, dec_int, dec_nat, i64_to_string, u64_to_string};
use crate::util::Error;

verus! {

/// The success payload of display-name validation: an empty object.
#[derive(Debug, Clone, PartialEq)]
pub struct ValidateDisplayNameResponse {}

/// One error record of a failed display-name validation.
#[derive(Debug, Clone, PartialEq)]
pub struct ValidateDisplayNameFailedResponseError {
    pub code: u32,
    pub message: String,
    pub user_facing_message: String,
}

/// The failure payload of display-name validation.
#[derive(Debug, Clone, PartialEq)]
pub struct ValidateDisplayNameFailedResponse {
    pub errors: Vec<ValidateDisplayNameFailedResponseError>,
}

/// The outcome of a display-name validation call.
#[derive(Debug, Clone, PartialEq)]
pub enum ValidateDisplayNameResponseEnum {
    Success(ValidateDisplayNameResponse),
    Failed(ValidateDisplayNameFailedResponse),
}

/// Which payload a display-name validation reply carries, decided by its
/// status code alone.
#[derive(Debug, Clone, PartialEq)]
pub enum ValidationStep {
    /// Status 200: the body decodes as the (empty) success payload.
    DecodeSuccess,
    /// Status 400: the body decodes as the failure payload.
    DecodeFailure,
    /// Any other status: the call failed with this error.
    Fail(Error),
}

/// Validates a display name for a new user.  The endpoint requires a
/// birthdate, whose value does not matter, so a fixed one is sent.
///
/// # Error codes
///
/// - 1: Display name is too short
/// - 2: Display name is too long
/// - 3: Display name contains invalid characters
/// - 4: Display name has been moderated
/// - 6: Request must contain a birthdate
pub fn validate_display_name(display_name: String) -> (r: Call<()>)
    ensures
        r.verb == Verb::Get,
        r.body is None,
        r.url@ == "https://users.roblox.com/v1/display-names/validate?displayName="@
            + display_name@ + "&birthdate=1999-12-31T23:00:00.000Z"@,
{
    Call {
        verb: Verb::Get,
        url: cat3(
            "https://users.roblox.com/v1/display-names/validate?displayName=",
            display_name.as_str(),
            "&birthdate=1999-12-31T23:00:00.000Z",
        ),
        body: None,
    }
}

/// Validates a display name for an existing user.
///
/// # Error codes
///
/// - 1: Display name is too short
/// - 2: Display name is too long
/// - 3: Display name contains invalid characters
/// - 4: Display name has been moderated
pub fn validate_display_name_for_user(display_name: String, user_id: u32) -> (r: Call<()>)
    ensures
        r.verb == Verb::Get,
        r.body is None,
        r.url@ == "https://users.roblox.com/v1/users/"@ + dec_nat(user_id as nat)
            + "/display-names/validate?displayName="@ + display_name@,
{
    Call {
        verb: Verb::Get,
        url: cat4(
            "https://users.roblox.com/v1/users/",
            u64_to_string(user_id as u64).as_str(),
            "/display-names/validate?displayName=",
            display_name.as_str(),
        ),
        body: None,
    }
}

/// Classifies the status of a display-name validation reply: 200 carries
/// the success payload, 400 carries the failure payload, and anything else
/// fails with the error the status code signals.
pub fn classify_validate_display_name(status: u16) -> (r: ValidationStep)
    ensures
        status == 200 ==> r == ValidationStep::DecodeSuccess,
        status == 400 ==> r == ValidationStep::DecodeFailure,
        status != 200 && status != 400 ==> r == ValidationStep::Fail(
            match status_error(status) {
                Some(e) => e,
                None => Error::Network,
            },
        ),
{
    if status == 200 {
        ValidationStep::DecodeSuccess
    } else if status == 400 {
        ValidationStep::DecodeFailure
    } else {
        match crate::util::status_codes::status_code_to_error(status) {
            Some(e) => ValidationStep::Fail(e),
            None => ValidationStep::Fail(Error::Network),
        }
    }
}

/// The payload that updates a display name.
#[derive(Debug, Clone, PartialEq)]
pub struct SetDisplayNameRequest {
    pub new_display_name: String,
}

/// Sets the display name of the user with the given id — the authenticated
/// user's own id, as returned by the authenticated-user lookup.
///
/// # Error codes
/// - 1: Display name is too short
/// - 2: Display name is too long
/// - 3: Display name contains invalid characters
/// - 4: Display name has been moderated
/// - 5: Display name updates for this user have been throttled
pub fn set_display_name(user_id: i64, new_display_name: String) -> (r: Call<SetDisplayNameRequest>)
    ensures
        r.verb == Verb::Patch,
        r.url@ == "https://users.roblox.com/v1/users/"@ + dec_int(user_id as int)
            + "/display-names"@,
        r.body matches Some(b) && b.new_display_name == new_display_name,
{
    Call {
        verb: Verb::Patch,
        url: cat3(
            "https://users.roblox.com/v1/users/",
            i64_to_string(user_id).as_str(),
            "/display-names",
        ),
        body: Some(SetDisplayNameRequest { new_display_name }),
    }
}

} // verus!
