//! The bearer-token guard: extracts the token from an `Authorization`
//! header and has it checked against the signing secret.
//!
//! Whether a given token verifies depends on the clock (token expiry), so
//! nothing is promised of the check itself; what is proved is the shape of
//! the decision: a request can only be authorized when its header carries a
//! bearer token, and a missing or malformed header is always refused.

use vstd::prelude::*;

use crate::text::{second_word, spec_second_word};

verus! {

/// The guard's decision on one request.
#[derive(Clone, Copy, Debug, PartialEq, Eq, Structural)]
pub enum AuthOutcome {
    Authorized,
    Unauthorized,
}

/// Relies on jsonwebtoken::decode::<serde_json::Value> with
/// DecodingKey::from_secret and Validation::default: whether `token` is a
/// well-formed signed token under `secret`, accepted by the default
/// validation (HMAC-SHA256, unexpired). Expiry makes this clock-dependent,
/// so nothing is stated of the outcome.
#[verifier::external_body]
fn token_verifies(token: &[u8], secret: &[u8]) -> bool {
    let key = jsonwebtoken::DecodingKey::from_secret(secret);
    let validation = jsonwebtoken::Validation::default();
    jsonwebtoken::decode::<serde_json::Value>(token, &key, &validation).is_ok()
}

/// The bearer token of an `Authorization` header value: its second
/// whitespace-separated word (the first being the scheme), if any.
pub open spec fn spec_bearer_token(header: Seq<u8>) -> Option<Seq<u8>> {
    spec_second_word(header)
}

/// Decide one request, given its `Authorization` header value (`None` when
/// the header is absent) and the signing secret.
///
/// A request with no header, or whose header holds no second word to take
/// for a token, is always refused; one that is authorized necessarily
/// carried a bearer token that the verifier accepted.
pub fn authenticate(header: Option<&[u8]>, secret: &[u8]) -> (r: AuthOutcome)
    ensures
        r == AuthOutcome::Authorized ==> (header matches Some(h) && spec_bearer_token(h@)
            is Some),
        header is None ==> r == AuthOutcome::Unauthorized,
        header matches Some(h) && spec_bearer_token(h@) is None ==> r
            == AuthOutcome::Unauthorized,
{
    let h = match header {
        Some(h) => h,
        None => {
            return AuthOutcome::Unauthorized;
        },
    };
    let token = match second_word(h) {
        Some(t) => t,
        None => {
            return AuthOutcome::Unauthorized;
        },
    };
    if token_verifies(token.as_slice(), secret) {
        AuthOutcome::Authorized
    } else {
        AuthOutcome::Unauthorized
    }
}

} // verus!
