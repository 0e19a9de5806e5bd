//! Scenarios for the request jar, the token machine and the JSON exchange
//! machine.

use rbx_api::util::jar::{Call, HttpReply, JsonExchange, JsonPhase, RequestJar, TokenStep, Verb};
use rbx_api::util::responses::RobloxError;
use rbx_api::util::Error;

fn reply(status: u16, csrf_header: Option<&str>, first_error: Option<RobloxError>) -> HttpReply {
    HttpReply {
        status,
        csrf_header: csrf_header.map(|s| s.to_string()),
        first_error,
    }
}

fn token_invalid_error() -> RobloxError {
    RobloxError {
        code: 0,
        message: "Token Validation Failed".to_string(),
        user_facing_message: None,
    }
}

fn business_error(code: i64, message: &str) -> RobloxError {
    RobloxError {
        code,
        message: message.to_string(),
        user_facing_message: Some("Something went wrong".to_string()),
    }
}

#[test]
fn fresh_jar_is_empty() {
    let jar = RequestJar::new();
    assert!(jar.roblosecurity.is_none());
    assert!(jar.xcsrf_token.is_none());
    assert!(jar.proxy.is_none());
}

#[test]
fn configure_credential_and_proxy() {
    let mut jar = RequestJar::new();
    jar.set_roblosecurity("COOKIE".to_string());
    jar.set_proxy("http://localhost:8080".to_string());
    assert_eq!(jar.roblosecurity, Some("COOKIE".to_string()));
    assert_eq!(jar.proxy, Some("http://localhost:8080".to_string()));
    assert!(jar.xcsrf_token.is_none());
}

#[test]
fn cookie_header_carries_credential() {
    let mut jar = RequestJar::new();
    assert_eq!(jar.cookie_header(), "");
    jar.set_roblosecurity("SECRET".to_string());
    assert_eq!(jar.cookie_header(), ".ROBLOSECURITY=SECRET;");
}

#[test]
fn get_request_carries_no_csrf_token() {
    let mut jar = RequestJar::new();
    jar.set_roblosecurity("S".to_string());
    let req = jar.get("https://users.roblox.com/v1/users/1");
    assert_eq!(req.verb, Verb::Get);
    assert_eq!(req.url, "https://users.roblox.com/v1/users/1");
    assert_eq!(req.cookie, ".ROBLOSECURITY=S;");
    assert!(req.csrf_token.is_none());
    assert!(req.body.is_none());
}

#[test]
fn post_request_carries_csrf_token() {
    let mut jar = RequestJar::new();
    jar.xcsrf_token = Some("tok".to_string());
    let req = jar.post("https://example.invalid/x", Some(41u8));
    assert_eq!(req.verb, Verb::Post);
    assert_eq!(req.csrf_token, Some("tok".to_string()));
    assert_eq!(req.body, Some(41u8));
    // Before any token was acquired the header value is empty, as the
    // original requests send.
    let bare = RequestJar::new();
    let req2 = bare.patch("https://example.invalid/y", Some(1u8));
    assert_eq!(req2.csrf_token, Some(String::new()));
}

#[test]
fn token_request_needs_credential() {
    let jar = RequestJar::new();
    let r = jar.xcsrf_request();
    assert!(matches!(r, Err(Error::Authentication)));

    let mut jar = RequestJar::new();
    jar.set_roblosecurity("S".to_string());
    let req = jar.xcsrf_request().unwrap();
    assert_eq!(req.verb, Verb::Post);
    assert_eq!(req.url, "https://auth.roblox.com/v2/logout");
    assert_eq!(req.cookie, ".ROBLOSECURITY=S;");
}

#[test]
fn token_acquisition_stores_header() {
    let mut jar = RequestJar::new();
    jar.set_roblosecurity("S".to_string());
    let step = jar.apply_token_reply(0, Some("fresh".to_string()));
    assert_eq!(step, TokenStep::Done);
    assert_eq!(jar.xcsrf_token, Some("fresh".to_string()));
}

#[test]
fn token_acquisition_fails_after_four_attempts() {
    let mut jar = RequestJar::new();
    jar.set_roblosecurity("S".to_string());
    assert_eq!(jar.apply_token_reply(0, None), TokenStep::Retry);
    assert_eq!(jar.apply_token_reply(1, None), TokenStep::Retry);
    assert_eq!(jar.apply_token_reply(2, None), TokenStep::Retry);
    assert_eq!(jar.apply_token_reply(3, None), TokenStep::Failed);
    assert!(jar.xcsrf_token.is_none());
}

#[test]
fn success_delivers() {
    let mut jar = RequestJar::new();
    let mut ex = JsonExchange::new(Verb::Post, "https://example.invalid/op".to_string());
    assert_eq!(ex.phase, JsonPhase::Send { retried: false });
    ex.on_reply(&mut jar, reply(200, None, None));
    assert_eq!(ex.phase, JsonPhase::Deliver);
}

#[test]
fn rate_limited_is_terminal() {
    // A 429 reply surfaces as RateLimited with no further attempt, even
    // when the envelope claims an invalid token.
    let mut jar = RequestJar::new();
    jar.set_roblosecurity("S".to_string());
    let mut ex = JsonExchange::new(Verb::Post, "https://example.invalid/op".to_string());
    ex.on_reply(&mut jar, reply(429, None, Some(token_invalid_error())));
    assert_eq!(ex.phase, JsonPhase::Failed(Error::RateLimited));
}

#[test]
fn business_error_is_surfaced() {
    let mut jar = RequestJar::new();
    let mut ex = JsonExchange::new(Verb::Post, "https://example.invalid/op".to_string());
    ex.on_reply(&mut jar, reply(400, None, Some(business_error(1, "Group is invalid"))));
    match ex.phase {
        JsonPhase::Failed(Error::RobloxError(e)) => {
            assert_eq!(e.code, 1);
            assert_eq!(e.message, "Group is invalid");
        }
        other => panic!("unexpected phase: {:?}", other),
    }
}

#[test]
fn missing_envelope_is_a_decode_failure() {
    let mut jar = RequestJar::new();
    let mut ex = JsonExchange::new(Verb::Post, "https://example.invalid/op".to_string());
    ex.on_reply(&mut jar, reply(500, None, None));
    assert_eq!(ex.phase, JsonPhase::Failed(Error::JSON));
}

#[test]
fn token_invalidation_refreshes_once_and_replays() {
    // A stale token triggers exactly one refresh and one replay; a second
    // failure is surfaced as it came, with no third attempt.
    let mut jar = RequestJar::new();
    jar.set_roblosecurity("S".to_string());
    jar.xcsrf_token = Some("stale".to_string());
    let mut ex = JsonExchange::new(Verb::Post, "https://example.invalid/op".to_string());

    ex.on_reply(&mut jar, reply(403, None, Some(token_invalid_error())));
    assert_eq!(ex.phase, JsonPhase::Refresh { attempt: 0 });

    ex.on_refresh_reply(&mut jar, Some("fresh".to_string()));
    assert_eq!(ex.phase, JsonPhase::Send { retried: true });
    assert_eq!(jar.xcsrf_token, Some("fresh".to_string()));

    // The replay is the same call — same method, same URL — now carrying
    // the refreshed token.
    let replay = ex.request(&jar, None::<String>);
    assert_eq!(replay.verb, Verb::Post);
    assert_eq!(replay.url, "https://example.invalid/op");
    assert_eq!(replay.csrf_token, Some("fresh".to_string()));

    // The replay fails with the same invalidation message: it is returned
    // verbatim instead of starting another refresh.
    ex.on_reply(&mut jar, reply(403, None, Some(token_invalid_error())));
    match &ex.phase {
        JsonPhase::Failed(Error::RobloxError(e)) => {
            assert_eq!(e.message, "Token Validation Failed");
        }
        other => panic!("unexpected phase: {:?}", other),
    }
}

#[test]
fn token_invalidation_replay_can_succeed() {
    let mut jar = RequestJar::new();
    jar.set_roblosecurity("S".to_string());
    let mut ex = JsonExchange::new(Verb::Post, "https://example.invalid/op".to_string());
    ex.on_reply(&mut jar, reply(403, None, Some(token_invalid_error())));
    assert_eq!(ex.phase, JsonPhase::Refresh { attempt: 0 });
    ex.on_refresh_reply(&mut jar, Some("fresh".to_string()));
    assert_eq!(ex.phase, JsonPhase::Send { retried: true });
    ex.on_reply(&mut jar, reply(200, None, None));
    assert_eq!(ex.phase, JsonPhase::Deliver);
}

#[test]
fn token_invalidation_without_credential_fails() {
    let mut jar = RequestJar::new();
    let mut ex = JsonExchange::new(Verb::Post, "https://example.invalid/op".to_string());
    ex.on_reply(&mut jar, reply(403, None, Some(token_invalid_error())));
    assert_eq!(ex.phase, JsonPhase::Failed(Error::Authentication));
}

#[test]
fn refresh_attempts_are_capped() {
    let mut jar = RequestJar::new();
    jar.set_roblosecurity("S".to_string());
    let mut ex = JsonExchange::new(Verb::Post, "https://example.invalid/op".to_string());
    ex.on_reply(&mut jar, reply(403, None, Some(token_invalid_error())));
    assert_eq!(ex.phase, JsonPhase::Refresh { attempt: 0 });
    ex.on_refresh_reply(&mut jar, None);
    assert_eq!(ex.phase, JsonPhase::Refresh { attempt: 1 });
    ex.on_refresh_reply(&mut jar, None);
    assert_eq!(ex.phase, JsonPhase::Refresh { attempt: 2 });
    ex.on_refresh_reply(&mut jar, None);
    assert_eq!(ex.phase, JsonPhase::Refresh { attempt: 3 });
    ex.on_refresh_reply(&mut jar, None);
    assert_eq!(ex.phase, JsonPhase::Failed(Error::XcsrfToken));
}

#[test]
fn response_token_header_is_absorbed() {
    let mut jar = RequestJar::new();
    let mut ex = JsonExchange::new(Verb::Post, "https://example.invalid/op".to_string());
    ex.on_reply(&mut jar, reply(200, Some("rotated"), None));
    assert_eq!(ex.phase, JsonPhase::Deliver);
    assert_eq!(jar.xcsrf_token, Some("rotated".to_string()));
}

#[test]
fn prepare_attaches_session_headers() {
    let mut jar = RequestJar::new();
    jar.set_roblosecurity("S".to_string());
    jar.xcsrf_token = Some("tok".to_string());
    let call = Call { verb: Verb::Delete, url: "https://example.invalid/z".to_string(), body: None::<()> };
    let req = jar.prepare(call);
    assert_eq!(req.verb, Verb::Delete);
    assert_eq!(req.cookie, ".ROBLOSECURITY=S;");
    assert_eq!(req.csrf_token, Some("tok".to_string()));
    let get_call = Call { verb: Verb::Get, url: "https://example.invalid/z".to_string(), body: None::<()> };
    let get_req = jar.prepare(get_call);
    assert!(get_req.csrf_token.is_none());
}
