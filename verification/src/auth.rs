//! The request authenticator: a caller-supplied credential is compared
//! against the shared secret. Two mutually exclusive modes exist; the relay
//! composes the bearer-token mode, and the body-as-secret mode is provided as
//! the documented alternative with the same contract discipline.

use crate::text::str_equal;
use crate::utf8check::is_valid_utf8;
use vstd::prelude::*;
use vstd::utf8::decode_utf8;
use vstd::utf8::decode_utf8_encode_utf8;
use vstd::utf8::encode_utf8;
use vstd::utf8::encode_utf8_decode_utf8;
use vstd::utf8::encode_utf8_valid_utf8;
use vstd::utf8::valid_utf8;

verus! {

/// Bearer-token mode: the credential is authentic exactly when it equals the
/// shared secret, by ordinary string equality.
pub fn bearer_token_matches(token: &str, secret: &str) -> (r: bool)
    ensures
        r == (token@ == secret@),
{
    str_equal(token, secret)
}

/// The byte cap on a request body in body-as-secret mode.
pub const MAX_SECRET_BODY_LEN: usize = 256;

/// The outcome of authenticating a request body in body-as-secret mode.
#[derive(Clone, Copy, Debug, PartialEq, Eq, Structural)]
pub enum BodyAuth {
    /// The body is the shared secret: the request is authentic.
    Accepted,
    /// The body is well-formed text but is not the shared secret.
    WrongSecret,
    /// The body exceeds the byte cap.
    TooLarge,
    /// The body is not valid text.
    Malformed,
}

/// What authenticating a body against the secret yields: oversized bodies are
/// rejected outright, then non-text bodies, and a well-formed body is
/// accepted exactly when it spells the secret.
pub open spec fn body_auth_spec(body: Seq<u8>, secret: Seq<char>) -> BodyAuth {
    if body.len() > MAX_SECRET_BODY_LEN {
        BodyAuth::TooLarge
    } else if !valid_utf8(body) {
        BodyAuth::Malformed
    } else if decode_utf8(body) == secret {
        BodyAuth::Accepted
    } else {
        BodyAuth::WrongSecret
    }
}

/// Body-as-secret mode: authenticates an entire request body against the
/// shared secret.
pub fn authenticate_body(body: &[u8], secret: &str) -> (r: BodyAuth)
    ensures
        r == body_auth_spec(body@, secret@),
{
    if body.len() > MAX_SECRET_BODY_LEN {
        return BodyAuth::TooLarge;
    }
    if !is_valid_utf8(body) {
        return BodyAuth::Malformed;
    }
    if crate::text::bytes_equal(body, secret.as_bytes()) {
        proof {
            // the body is the secret's encoding, so it decodes to the secret
            encode_utf8_decode_utf8(secret@);
        }
        BodyAuth::Accepted
    } else {
        proof {
            // re-encoding the decoded body recovers the body, so a body that
            // differs from the secret's encoding decodes to something else
            if decode_utf8(body@) == secret@ {
                decode_utf8_encode_utf8(body@);
            }
        }
        BodyAuth::WrongSecret
    }
}

/// The body authenticator accepts nothing but the secret: a body is accepted
/// exactly when it is the secret's own encoding (which always fits under the
/// cap when the secret itself does).
pub proof fn lemma_only_the_secret_is_accepted(body: Seq<u8>, secret: Seq<char>)
    ensures
        body_auth_spec(body, secret) == BodyAuth::Accepted <==> (body == encode_utf8(secret)
            && body.len() <= MAX_SECRET_BODY_LEN),
{
    if body_auth_spec(body, secret) == BodyAuth::Accepted {
        // a valid body is its own decoding's encoding, and it decodes to the secret
        decode_utf8_encode_utf8(body);
    }
    if body == encode_utf8(secret) && body.len() <= MAX_SECRET_BODY_LEN {
        // the secret's encoding is well-formed text and decodes back to the secret
        encode_utf8_valid_utf8(secret);
        encode_utf8_decode_utf8(secret);
    }
}

} // verus!
