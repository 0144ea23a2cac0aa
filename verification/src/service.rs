//! The request-to-response mapping of the relay. Every endpoint is a
//! stateless decision over the fixed configuration and the inbound request;
//! the host program performs the decision's side effect (recording a ping or
//! sending the one outbound call) and responds with the stated status.
//!
//! The relay composes the bearer-token authenticator over its protected
//! endpoints. The body-as-secret variant of the notify endpoint is provided
//! separately, built on the body authenticator.

use crate::auth::body_auth_spec;
use crate::auth::authenticate_body;
use crate::auth::BodyAuth;
use crate::config::ServiceConfig;
use crate::text::str_equal;
use vstd::prelude::*;
use vstd::utf8::valid_utf8;

verus! {

/// Success with no body: the liveness response.
pub const STATUS_NO_CONTENT: u16 = 204;

/// Success.
pub const STATUS_OK: u16 = 200;

/// The credential was missing or wrong.
pub const STATUS_UNAUTHORIZED: u16 = 401;

/// The body was oversized or malformed (body-as-secret mode).
pub const STATUS_BAD_REQUEST: u16 = 400;

/// No such endpoint.
pub const STATUS_NOT_FOUND: u16 = 404;

/// The outbound call failed; the internal cause is not surfaced.
pub const STATUS_BAD_GATEWAY: u16 = 502;

/// The HTTP methods the relay routes on.
#[derive(Clone, Copy, Debug, PartialEq, Eq, Structural)]
pub enum Method {
    Get,
    Post,
}

/// What the host must do for one inbound request.
#[derive(Clone, Copy, Debug, PartialEq, Eq, Structural)]
pub enum RouteDecision {
    /// Respond with this status; perform no side effect.
    Respond(u16),
    /// Record one valid ping on the counter, then respond with success.
    RecordPing,
    /// Send the fixed notification once, then respond with
    /// [`forward_status`] of the outcome.
    ForwardNotification,
}

/// True of the decisions that trigger a side effect (a counter increment or
/// an outbound call).
pub open spec fn performs_side_effect(d: RouteDecision) -> bool {
    d == RouteDecision::RecordPing || d == RouteDecision::ForwardNotification
}

/// The bearer credential of a request, if one was carried, as a character
/// sequence.
pub open spec fn credential_view(bearer: Option<&str>) -> Option<Seq<char>> {
    match bearer {
        Some(token) => Some(token@),
        None => None,
    }
}

/// The routing rule of the relay, bearer-token mode: the liveness endpoint
/// answers no-content unconditionally; the ping and notify endpoints demand
/// the exact secret as bearer credential and reject everything else with an
/// unauthorized response before any side effect; everything else is not
/// found.
pub open spec fn decision_spec(
    secret: Seq<char>,
    method: Method,
    path: Seq<char>,
    bearer: Option<Seq<char>>,
) -> RouteDecision {
    match method {
        Method::Get => {
            if path == "/"@ {
                RouteDecision::Respond(STATUS_NO_CONTENT)
            } else {
                RouteDecision::Respond(STATUS_NOT_FOUND)
            }
        },
        Method::Post => {
            if path == "/ping"@ {
                if bearer == Some(secret) {
                    RouteDecision::RecordPing
                } else {
                    RouteDecision::Respond(STATUS_UNAUTHORIZED)
                }
            } else if path == "/notify"@ {
                if bearer == Some(secret) {
                    RouteDecision::ForwardNotification
                } else {
                    RouteDecision::Respond(STATUS_UNAUTHORIZED)
                }
            } else {
                RouteDecision::Respond(STATUS_NOT_FOUND)
            }
        },
    }
}

/// Decides one inbound request in bearer-token mode.
pub fn decide(config: &ServiceConfig, method: Method, path: &str, bearer: Option<&str>) -> (d:
    RouteDecision)
    ensures
        d == decision_spec(config.shared_secret@, method, path@, credential_view(bearer)),
{
    match method {
        Method::Get => {
            if str_equal(path, "/") {
                RouteDecision::Respond(STATUS_NO_CONTENT)
            } else {
                RouteDecision::Respond(STATUS_NOT_FOUND)
            }
        },
        Method::Post => {
            if str_equal(path, "/ping") {
                match bearer {
                    Some(token) => {
                        if str_equal(token, config.shared_secret.as_str()) {
                            RouteDecision::RecordPing
                        } else {
                            RouteDecision::Respond(STATUS_UNAUTHORIZED)
                        }
                    },
                    None => RouteDecision::Respond(STATUS_UNAUTHORIZED),
                }
            } else if str_equal(path, "/notify") {
                match bearer {
                    Some(token) => {
                        if str_equal(token, config.shared_secret.as_str()) {
                            RouteDecision::ForwardNotification
                        } else {
                            RouteDecision::Respond(STATUS_UNAUTHORIZED)
                        }
                    },
                    None => RouteDecision::Respond(STATUS_UNAUTHORIZED),
                }
            } else {
                RouteDecision::Respond(STATUS_NOT_FOUND)
            }
        },
    }
}

/// The status of the notify response once the outbound call has been made:
/// success maps to plain success, any delivery failure maps to a bad-gateway
/// response.
pub fn forward_status(delivered: bool) -> (s: u16)
    ensures
        s == if delivered {
            STATUS_OK
        } else {
            STATUS_BAD_GATEWAY
        },
{
    if delivered {
        STATUS_OK
    } else {
        STATUS_BAD_GATEWAY
    }
}

/// True of the endpoints that demand a credential.
pub open spec fn is_protected(method: Method, path: Seq<char>) -> bool {
    method == Method::Post && (path == "/ping"@ || path == "/notify"@)
}

/// A credential that is not the secret is rejected by every protected
/// endpoint with an unauthorized response, and no side effect is performed:
/// the counter is untouched and nothing is sent outward.
pub proof fn lemma_invalid_credential_rejected(
    secret: Seq<char>,
    method: Method,
    path: Seq<char>,
    bearer: Option<Seq<char>>,
)
    requires
        bearer != Some(secret),
        is_protected(method, path),
    ensures
        decision_spec(secret, method, path, bearer) == RouteDecision::Respond(
            STATUS_UNAUTHORIZED,
        ),
        !performs_side_effect(decision_spec(secret, method, path, bearer)),
{
}

/// No unprotected request ever triggers a side effect, whatever credential it
/// carries: only an authenticated ping or notify does.
pub proof fn lemma_side_effects_only_when_authentic(
    secret: Seq<char>,
    method: Method,
    path: Seq<char>,
    bearer: Option<Seq<char>>,
)
    ensures
        performs_side_effect(decision_spec(secret, method, path, bearer)) ==> is_protected(
            method,
            path,
        ) && bearer == Some(secret),
{
}

/// The liveness endpoint answers no-content on every request, regardless of
/// what credential, if any, the request carries.
pub proof fn lemma_index_always_no_content(secret: Seq<char>, bearer: Option<Seq<char>>)
    ensures
        decision_spec(secret, Method::Get, "/"@, bearer) == RouteDecision::Respond(
            STATUS_NO_CONTENT,
        ),
{
}

/// A notify request carrying the exact secret triggers exactly one outbound
/// call: its decision is the forwarding decision, nothing else.
pub proof fn lemma_valid_notify_forwards(secret: Seq<char>, bearer: Option<Seq<char>>)
    requires
        bearer == Some(secret),
    ensures
        decision_spec(secret, Method::Post, "/notify"@, bearer)
            == RouteDecision::ForwardNotification,
{
    reveal_strlit("/ping");
    reveal_strlit("/notify");
    assert("/notify"@.len() != "/ping"@.len());
}

/// A ping request carrying the exact secret records exactly one ping.
pub proof fn lemma_valid_ping_records(secret: Seq<char>, bearer: Option<Seq<char>>)
    requires
        bearer == Some(secret),
    ensures
        decision_spec(secret, Method::Post, "/ping"@, bearer) == RouteDecision::RecordPing,
{
}

/// The notify rule in body-as-secret mode: an oversized body is rejected as
/// too large, a non-text body as malformed (both before any outbound call), a
/// well-formed body that is not the secret is unauthorized, and only the
/// secret itself triggers the forwarding.
pub open spec fn body_notify_spec(body: Seq<u8>, secret: Seq<char>) -> RouteDecision {
    match body_auth_spec(body, secret) {
        BodyAuth::Accepted => RouteDecision::ForwardNotification,
        BodyAuth::WrongSecret => RouteDecision::Respond(STATUS_UNAUTHORIZED),
        BodyAuth::TooLarge => RouteDecision::Respond(STATUS_BAD_REQUEST),
        BodyAuth::Malformed => RouteDecision::Respond(STATUS_BAD_REQUEST),
    }
}

/// Decides a notify request in body-as-secret mode.
pub fn decide_body_notify(body: &[u8], secret: &str) -> (d: RouteDecision)
    ensures
        d == body_notify_spec(body@, secret@),
{
    match authenticate_body(body, secret) {
        BodyAuth::Accepted => RouteDecision::ForwardNotification,
        BodyAuth::WrongSecret => RouteDecision::Respond(STATUS_UNAUTHORIZED),
        BodyAuth::TooLarge => RouteDecision::Respond(STATUS_BAD_REQUEST),
        BodyAuth::Malformed => RouteDecision::Respond(STATUS_BAD_REQUEST),
    }
}

/// A body over the cap is rejected as a bad request, and no outbound call is
/// performed.
pub proof fn lemma_oversized_body_rejected(body: Seq<u8>, secret: Seq<char>)
    requires
        body.len() > crate::auth::MAX_SECRET_BODY_LEN,
    ensures
        body_notify_spec(body, secret) == RouteDecision::Respond(STATUS_BAD_REQUEST),
        !performs_side_effect(body_notify_spec(body, secret)),
{
}

/// A body that is not valid text is rejected as a bad request, and no
/// outbound call is performed.
pub proof fn lemma_malformed_body_rejected(body: Seq<u8>, secret: Seq<char>)
    requires
        !valid_utf8(body),
    ensures
        body_notify_spec(body, secret) == RouteDecision::Respond(STATUS_BAD_REQUEST),
        !performs_side_effect(body_notify_spec(body, secret)),
{
}

/// A body that is well-formed text but not the secret is rejected as
/// unauthorized — a wrong credential, not a malformed request — and no
/// outbound call is performed.
pub proof fn lemma_wrong_body_secret_rejected(body: Seq<u8>, secret: Seq<char>)
    requires
        body.len() <= crate::auth::MAX_SECRET_BODY_LEN,
        valid_utf8(body),
        vstd::utf8::decode_utf8(body) != secret,
    ensures
        body_notify_spec(body, secret) == RouteDecision::Respond(STATUS_UNAUTHORIZED),
        !performs_side_effect(body_notify_spec(body, secret)),
{
}

} // verus!
