//! The error taxonomy and its user-facing messages.

use rbx_api::util::responses::RobloxError;
use rbx_api::util::status_codes::status_code_to_error;
use rbx_api::util::{error_to_user_message, Error};

#[test]
fn user_messages_are_exact() {
    assert_eq!(error_to_user_message(Error::Network), "Network error");
    assert_eq!(error_to_user_message(Error::JSON), "JSON error");
    assert_eq!(
        error_to_user_message(Error::Authentication),
        "Authentication error"
    );
    assert_eq!(
        error_to_user_message(Error::Throttled),
        "Throttled, too many requests"
    );
    assert_eq!(
        error_to_user_message(Error::RateLimited),
        "Throttled, too many requests"
    );
    assert_eq!(
        error_to_user_message(Error::InvalidPageLimit),
        "Invalid page limit"
    );
    assert_eq!(
        error_to_user_message(Error::InvalidRelationshipType),
        "Invalid group relationship type"
    );
    assert_eq!(
        error_to_user_message(Error::XcsrfToken),
        "Xcsrf token error"
    );
}

#[test]
fn remote_error_message_carries_the_service_text() {
    let e = Error::RobloxError(RobloxError {
        code: 7,
        message: "Group is invalid or does not exist.".to_string(),
        user_facing_message: None,
    });
    assert_eq!(
        error_to_user_message(e),
        "Roblox error: Group is invalid or does not exist."
    );
}

#[test]
fn status_codes_map_to_errors() {
    assert!(status_code_to_error(200).is_none());
    assert!(matches!(status_code_to_error(401), Some(Error::Authentication)));
    assert!(matches!(status_code_to_error(403), Some(Error::Authentication)));
    assert!(matches!(status_code_to_error(429), Some(Error::Throttled)));
    assert!(matches!(status_code_to_error(500), Some(Error::Network)));
    assert!(matches!(status_code_to_error(404), Some(Error::Network)));
}
