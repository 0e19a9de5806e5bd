//! The request jar: credential and anti-forgery token state, request
//! preparation, and the verified state machines for response handling.
//!
//! The jar owns no socket.  It prepares requests (URL, cookie and
//! anti-forgery headers) and interprets responses; a driver performs the
//! network exchange and feeds what it observed back in.  Two machines are
//! defined here:
//!
//! * the token machine ([`RequestJar::xcsrf_request`] /
//!   [`RequestJar::apply_token_reply`]): acquires the anti-forgery token
//!   with a bounded number of attempts;
//! * the JSON exchange machine ([`JsonExchange`]): classifies the reply of
//!   a JSON call, refreshes the token and replays the call exactly once on
//!   a token-invalidation error, and surfaces every other failure.

use vstd::prelude::*;

use crate::util::responses::RobloxError;
use crate::util::text::cat3;
use crate::util::Error;

verus! {

/// The HTTP method of a request.
#[derive(Debug, Clone, Copy, PartialEq, Eq, Structural)]
pub enum Verb {
    Get,
    Post,
    Patch,
    Delete,
}

/// A fully prepared outbound request: everything the driver needs to
/// perform the exchange, as plain values.
#[derive(Debug, Clone, PartialEq)]
pub struct HttpRequest<B> {
    pub verb: Verb,
    pub url: String,
    /// The request payload, if the operation carries one.
    pub body: Option<B>,
    /// The value of the `Cookie` header; empty when no credential is
    /// configured.
    pub cookie: String,
    /// The value of the `X-CSRF-TOKEN` header.  Bare reads carry none;
    /// mutating requests always carry it, empty when no token is held yet.
    pub csrf_token: Option<String>,
}

/// What the driver observed of one HTTP exchange.
#[derive(Debug, Clone, PartialEq)]
pub struct HttpReply {
    pub status: u16,
    /// The `X-CSRF-TOKEN` response header, if the server sent one.
    pub csrf_header: Option<String>,
    /// The first record of the error envelope, when the response was not a
    /// success and its body decoded as the envelope.
    pub first_error: Option<RobloxError>,
}

/// A planned endpoint call — verb, URL and optional typed payload — before
/// session headers are attached to it by [`RequestJar::prepare`].
#[derive(Debug, Clone, PartialEq)]
pub struct Call<B> {
    pub verb: Verb,
    pub url: String,
    pub body: Option<B>,
}

/// The session state: an optional credential, the anti-forgery token once
/// acquired, and an optional outbound proxy address.
#[derive(Debug, Clone, PartialEq)]
pub struct RequestJar {
    pub roblosecurity: Option<String>,
    pub xcsrf_token: Option<String>,
    pub proxy: Option<String>,
}

/// The message with which the remote service reports a stale anti-forgery
/// token.
pub open spec fn token_invalid_chars() -> Seq<char> {
    "Token Validation Failed"@
}

/// One step of the token machine.
#[derive(Debug, Clone, Copy, PartialEq, Eq, Structural)]
pub enum TokenStep {
    /// The token was stored; acquisition is complete.
    Done,
    /// The response carried no token; the request is to be sent again.
    Retry,
    /// The attempt cap was reached without a token: `Error::XcsrfToken`.
    Failed,
}

impl RequestJar {
    /// A fresh session: no credential, no token, no proxy.
    pub fn new() -> (jar: RequestJar)
        ensures
            jar.roblosecurity is None,
            jar.xcsrf_token is None,
            jar.proxy is None,
    {
        RequestJar { roblosecurity: None, xcsrf_token: None, proxy: None }
    }

    /// Stores the session credential.  Mutating calls must carry a current
    /// anti-forgery token, so the driver acquires one (with
    /// [`Self::xcsrf_request`]) right after configuring the credential.
    pub fn set_roblosecurity(&mut self, roblosecurity: String)
        ensures
            final(self).roblosecurity == Some(roblosecurity),
            final(self).xcsrf_token == old(self).xcsrf_token,
            final(self).proxy == old(self).proxy,
    {
        self.roblosecurity = Some(roblosecurity);
    }

    /// Stores the outbound proxy address.
    pub fn set_proxy(&mut self, proxy: String)
        ensures
            final(self).proxy == Some(proxy),
            final(self).roblosecurity == old(self).roblosecurity,
            final(self).xcsrf_token == old(self).xcsrf_token,
    {
        self.proxy = Some(proxy);
    }

    /// The value carried in the `Cookie` header: the credential in the
    /// session cookie's name, or nothing when unauthenticated.
    pub open spec fn cookie_chars(self) -> Seq<char> {
        match self.roblosecurity {
            Some(c) => ".ROBLOSECURITY="@ + c@ + ";"@,
            None => Seq::empty(),
        }
    }

    /// The value carried in the `X-CSRF-TOKEN` header of mutating requests:
    /// the held token, or empty before one was acquired.
    pub open spec fn csrf_chars(self) -> Seq<char> {
        match self.xcsrf_token {
            Some(t) => t@,
            None => Seq::empty(),
        }
    }

    /// Renders the `Cookie` header value.
    pub fn cookie_header(&self) -> (r: String)
        ensures
            r@ == self.cookie_chars(),
    {
        match &self.roblosecurity {
            Some(c) => cat3(".ROBLOSECURITY=", c.as_str(), ";"),
            None => String::new(),
        }
    }

    /// Renders the `X-CSRF-TOKEN` header value.
    pub fn csrf_header(&self) -> (r: String)
        ensures
            r@ == self.csrf_chars(),
    {
        match &self.xcsrf_token {
            Some(t) => t.clone(),
            None => String::new(),
        }
    }

    /// Prepares a bare read: cookie and accept headers, no anti-forgery
    /// token.
    pub fn get(&self, url: &str) -> (r: HttpRequest<()>)
        ensures
            r.verb == Verb::Get,
            r.url@ == url@,
            r.body is None,
            r.cookie@ == self.cookie_chars(),
            r.csrf_token is None,
    {
        HttpRequest {
            verb: Verb::Get,
            url: url.to_owned(),
            body: None,
            cookie: self.cookie_header(),
            csrf_token: None,
        }
    }

    /// Prepares a mutating request with the given verb: cookie, content
    /// headers and the current anti-forgery token.
    pub fn mutate<B>(&self, verb: Verb, url: &str, body: Option<B>) -> (r: HttpRequest<B>)
        requires
            verb != Verb::Get,
        ensures
            r.verb == verb,
            r.url@ == url@,
            r.body == body,
            r.cookie@ == self.cookie_chars(),
            r.csrf_token matches Some(t) && t@ == self.csrf_chars(),
    {
        HttpRequest {
            verb,
            url: url.to_owned(),
            body,
            cookie: self.cookie_header(),
            csrf_token: Some(self.csrf_header()),
        }
    }

    /// Prepares a POST request.
    pub fn post<B>(&self, url: &str, body: Option<B>) -> (r: HttpRequest<B>)
        ensures
            r.verb == Verb::Post,
            r.url@ == url@,
            r.body == body,
            r.cookie@ == self.cookie_chars(),
            r.csrf_token matches Some(t) && t@ == self.csrf_chars(),
    {
        self.mutate(Verb::Post, url, body)
    }

    /// Prepares a PATCH request.
    pub fn patch<B>(&self, url: &str, body: Option<B>) -> (r: HttpRequest<B>)
        ensures
            r.verb == Verb::Patch,
            r.url@ == url@,
            r.body == body,
            r.cookie@ == self.cookie_chars(),
            r.csrf_token matches Some(t) && t@ == self.csrf_chars(),
    {
        self.mutate(Verb::Patch, url, body)
    }

    /// Prepares a DELETE request.
    pub fn delete<B>(&self, url: &str, body: Option<B>) -> (r: HttpRequest<B>)
        ensures
            r.verb == Verb::Delete,
            r.url@ == url@,
            r.body == body,
            r.cookie@ == self.cookie_chars(),
            r.csrf_token matches Some(t) && t@ == self.csrf_chars(),
    {
        self.mutate(Verb::Delete, url, body)
    }

    /// Attaches the session headers to a planned call: the cookie always,
    /// the anti-forgery token on every verb but a bare read.
    pub fn prepare<B>(&self, call: Call<B>) -> (r: HttpRequest<B>)
        ensures
            r.verb == call.verb,
            r.url == call.url,
            r.body == call.body,
            r.cookie@ == self.cookie_chars(),
            call.verb == Verb::Get ==> r.csrf_token is None,
            call.verb != Verb::Get ==> (r.csrf_token matches Some(t) && t@ == self.csrf_chars()),
    {
        let Call { verb, url, body } = call;
        let csrf_token = if verb == Verb::Get {
            None
        } else {
            Some(self.csrf_header())
        };
        HttpRequest { verb, url, body, cookie: self.cookie_header(), csrf_token }
    }

    /// The side-effect-free authenticated request whose response header
    /// carries the anti-forgery token.  Fails with
    /// `Error::Authentication` when no credential is configured.
    pub fn xcsrf_request(&self) -> (r: Result<HttpRequest<()>, Error>)
        ensures
            r is Ok <==> self.roblosecurity is Some,
            r matches Err(e) ==> e == Error::Authentication,
            r matches Ok(q) ==> q.verb == Verb::Post && q.url@
                == "https://auth.roblox.com/v2/logout"@ && q.body is None && q.cookie@
                == self.cookie_chars() && q.csrf_token is None,
    {
        if self.roblosecurity.is_none() {
            return Err(Error::Authentication);
        }
        Ok(
            HttpRequest {
                verb: Verb::Post,
                url: "https://auth.roblox.com/v2/logout".to_owned(),
                body: None,
                cookie: self.cookie_header(),
                csrf_token: None,
            },
        )
    }

    /// Feeds back the token response header of attempt number `attempt`
    /// (counted from zero).  A present header is stored and completes the
    /// acquisition; a missing one asks for another attempt until the cap of
    /// four attempts in all is reached.
    pub fn apply_token_reply(&mut self, attempt: u8, header: Option<String>) -> (r: TokenStep)
        requires
            attempt < 4,
        ensures
            final(self).roblosecurity == old(self).roblosecurity,
            final(self).proxy == old(self).proxy,
            header is Some ==> r == TokenStep::Done && final(self).xcsrf_token == header,
            header is None ==> final(self).xcsrf_token == old(self).xcsrf_token,
            header is None && attempt < 3 ==> r == TokenStep::Retry,
            header is None && attempt == 3 ==> r == TokenStep::Failed,
    {
        match header {
            Some(t) => {
                self.xcsrf_token = Some(t);
                TokenStep::Done
            },
            None => {
                if attempt < 3 {
                    TokenStep::Retry
                } else {
                    TokenStep::Failed
                }
            },
        }
    }
}

/// The phase a JSON exchange is in, which tells the driver what to do next.
#[derive(Debug, Clone, PartialEq)]
pub enum JsonPhase {
    /// The call is to be sent; `retried` records whether this is the replay
    /// after a token refresh.
    Send { retried: bool },
    /// The token request is to be sent; `attempt` is the number of the
    /// attempt about to be made, counted from zero.
    Refresh { attempt: u8 },
    /// Status 200: the body is to be decoded as the expected shape and
    /// handed to the caller.
    Deliver,
    /// The exchange failed with this error.
    Failed(Error),
}

/// How a reply to the main call of a JSON exchange is classified.
///
/// A success delivers.  Status 429 is `RateLimited`, terminally.  Any other
/// non-success reply is read through the error envelope: a
/// token-invalidation message on a first (non-replayed) call starts a token
/// refresh when a credential is present; every other envelope error is
/// surfaced as `RobloxError`, and a reply whose envelope did not decode is
/// surfaced as a decode failure.
pub open spec fn classify(retried: bool, has_credential: bool, reply: HttpReply) -> JsonPhase {
    if reply.status == 200 {
        JsonPhase::Deliver
    } else if reply.status == 429 {
        JsonPhase::Failed(Error::RateLimited)
    } else {
        match reply.first_error {
            Some(e) => if e.message@ == token_invalid_chars() && !retried {
                if has_credential {
                    JsonPhase::Refresh { attempt: 0 }
                } else {
                    JsonPhase::Failed(Error::Authentication)
                }
            } else {
                JsonPhase::Failed(Error::RobloxError(e))
            },
            None => JsonPhase::Failed(Error::JSON),
        }
    }
}

/// One JSON-typed call in progress, with its bounded token-refresh retry.
///
/// The exchange remembers the call's verb and URL, and every send it asks
/// for — the first as well as the one replay after a token refresh — is
/// built by [`JsonExchange::request`] from those same fields: the replay
/// uses the same method and the same URL as the original call.
pub struct JsonExchange {
    /// The verb of the call being exchanged; never changed by a step.
    pub verb: Verb,
    /// The URL of the call being exchanged; never changed by a step.
    pub url: String,
    pub phase: JsonPhase,
}

impl JsonExchange {
    /// Starts an exchange of the given call: it is to be sent for the
    /// first time.
    pub fn new(verb: Verb, url: String) -> (r: JsonExchange)
        ensures
            r.verb == verb,
            r.url == url,
            r.phase == (JsonPhase::Send { retried: false }),
    {
        JsonExchange { verb, url, phase: JsonPhase::Send { retried: false } }
    }

    /// The request to send in the pending `Send` phase: the exchange's own
    /// verb and URL — identical on the first send and on the replay — with
    /// the given payload and the jar's current session headers.
    pub fn request<B>(&self, jar: &RequestJar, body: Option<B>) -> (r: HttpRequest<B>)
        requires
            self.phase is Send,
        ensures
            r.verb == self.verb,
            r.url == self.url,
            r.body == body,
            r.cookie@ == jar.cookie_chars(),
            self.verb == Verb::Get ==> r.csrf_token is None,
            self.verb != Verb::Get ==> (r.csrf_token matches Some(t) && t@ == jar.csrf_chars()),
    {
        jar.prepare(Call { verb: self.verb, url: self.url.clone(), body })
    }

    /// Feeds back the reply to the main call.  Any anti-forgery token the
    /// response carried is stored in the jar first; the reply is then
    /// classified by [`classify`].
    pub fn on_reply(&mut self, jar: &mut RequestJar, reply: HttpReply)
        requires
            old(self).phase is Send,
        ensures
            final(self).verb == old(self).verb,
            final(self).url == old(self).url,
            final(self).phase == classify(
                old(self).phase->retried,
                old(jar).roblosecurity is Some,
                reply,
            ),
            final(jar).roblosecurity == old(jar).roblosecurity,
            final(jar).proxy == old(jar).proxy,
            reply.csrf_header is Some ==> final(jar).xcsrf_token == reply.csrf_header,
            reply.csrf_header is None ==> final(jar).xcsrf_token == old(jar).xcsrf_token,
    {
        let retried = match &self.phase {
            JsonPhase::Send { retried } => *retried,
            _ => false,
        };
        let HttpReply { status, csrf_header, first_error } = reply;
        if let Some(t) = csrf_header {
            jar.xcsrf_token = Some(t);
        }
        if status == 200 {
            self.phase = JsonPhase::Deliver;
        } else if status == 429 {
            self.phase = JsonPhase::Failed(Error::RateLimited);
        } else {
            match first_error {
                Some(e) => {
                    let invalid = e.message == "Token Validation Failed".to_owned();
                    if invalid && !retried {
                        if jar.roblosecurity.is_some() {
                            self.phase = JsonPhase::Refresh { attempt: 0 };
                        } else {
                            self.phase = JsonPhase::Failed(Error::Authentication);
                        }
                    } else {
                        self.phase = JsonPhase::Failed(Error::RobloxError(e));
                    }
                },
                None => {
                    self.phase = JsonPhase::Failed(Error::JSON);
                },
            }
        }
    }

    /// Feeds back the token response header of the pending refresh attempt.
    /// A token completes the refresh and asks for the one replay of the
    /// original call; a missing token retries the acquisition up to the cap
    /// and then fails the exchange with `Error::XcsrfToken`.
    pub fn on_refresh_reply(&mut self, jar: &mut RequestJar, header: Option<String>)
        requires
            old(self).phase matches JsonPhase::Refresh { attempt } && attempt < 4,
        ensures
            final(self).verb == old(self).verb,
            final(self).url == old(self).url,
            final(jar).roblosecurity == old(jar).roblosecurity,
            final(jar).proxy == old(jar).proxy,
            header is Some ==> final(jar).xcsrf_token == header && final(self).phase == (
            JsonPhase::Send { retried: true }),
            header is None ==> final(jar).xcsrf_token == old(jar).xcsrf_token,
            header is None && old(self).phase->attempt < 3 ==> final(self).phase == (
            JsonPhase::Refresh { attempt: (old(self).phase->attempt + 1) as u8 }),
            header is None && old(self).phase->attempt == 3 ==> final(self).phase
                == JsonPhase::Failed(Error::XcsrfToken),
    {
        let attempt = match &self.phase {
            JsonPhase::Refresh { attempt } => *attempt,
            _ => 0,
        };
        match jar.apply_token_reply(attempt, header) {
            TokenStep::Done => {
                self.phase = JsonPhase::Send { retried: true };
            },
            TokenStep::Retry => {
                self.phase = JsonPhase::Refresh { attempt: attempt + 1 };
            },
            TokenStep::Failed => {
                self.phase = JsonPhase::Failed(Error::XcsrfToken);
            },
        }
    }
}

/// Law: a success delivers, and nothing else does — a JSON exchange hands
/// the decoded body to the caller exactly when the reply's status is 200.
pub proof fn lemma_deliver_iff_success(retried: bool, has_credential: bool, reply: HttpReply)
    ensures
        classify(retried, has_credential, reply) is Deliver <==> reply.status == 200,
{
}

/// Law: a 429 reply surfaces as `RateLimited` and triggers no refresh and
/// no further attempt, whatever the envelope says and whether or not the
/// call was already replayed.
pub proof fn lemma_rate_limited_is_terminal(retried: bool, has_credential: bool, reply: HttpReply)
    requires
        reply.status == 429,
    ensures
        classify(retried, has_credential, reply) == JsonPhase::Failed(Error::RateLimited),
{
}

/// Law: the token-invalidation refresh happens at most once per call.  A
/// reply to the replayed call is never answered with another refresh: a
/// second envelope failure is surfaced exactly as it came.
pub proof fn lemma_single_refresh(has_credential: bool, reply: HttpReply)
    ensures
        !(classify(true, has_credential, reply) is Refresh),
        reply.status != 200 && reply.status != 429 ==> (reply.first_error matches Some(e)
            ==> classify(true, has_credential, reply) == JsonPhase::Failed(Error::RobloxError(e))),
{
}

} // verus!
