//! Token service: issues and verifies signed, stateless session tokens.
//!
//! A token is a compact signed representation (JWT, HMAC-SHA256) of the
//! session claims: subject, issue time, expiry time. The signing and the
//! signature check are done by the `jsonwebtoken` crate behind trusted
//! wrappers; the expiry check against the caller's clock is verified code.

use jsonwebtoken::errors::ErrorKind;
use jsonwebtoken::{decode, Algorithm, DecodingKey, Validation};
use serde_json::Value;
use vstd::prelude::*;

verus! {

/// Why verifying a token failed.
#[derive(Clone, Copy, Debug, PartialEq, Eq, Structural)]
pub enum TokenError {
    /// The token's structure could not be parsed.
    Malformed,
    /// The signature check failed.
    InvalidSignature,
    /// The token was valid but its expiry time has passed.
    Expired,
}

/// The claims carried inside a session token: subject, issue time and
/// expiry time, as Unix timestamps in seconds.
pub struct TokenClaims {
    pub sub: String,
    pub iat: i64,
    pub exp: i64,
}

/// The compact signed token that `jsonwebtoken::encode` produces, with an
/// HMAC-SHA256 key, for the claims `{sub, iat, exp}`. The encoding is a
/// deterministic function of the secret and the claims.
pub uninterp spec fn jwt_of(secret: Seq<char>, sub: Seq<char>, iat: i64, exp: i64) -> Seq<char>;

/// What `jsonwebtoken::decode`, run with the HS256 algorithm and expiry
/// validation turned off, makes of a token under a secret: the claims
/// `(sub, iat, exp)` when the token is well-formed and correctly signed,
/// `None` otherwise. With time-based validation off, the outcome depends
/// on the secret and the token alone.
pub uninterp spec fn jwt_dec(secret: Seq<char>, token: Seq<char>) -> Option<(Seq<char>, i64, i64)>;

/// Relies on `jsonwebtoken::encode` with `Header::default()` (HS256) and
/// `EncodingKey::from_secret`: the token is a deterministic function of
/// the secret and the claims, and signing with an HMAC key cannot fail.
/// Session times are Unix seconds, so the claims are nonnegative.
#[verifier::external_body]
fn jwt_encode(secret: &str, sub: &str, iat: i64, exp: i64) -> (r: String)
    requires
        0 <= iat,
        0 <= exp,
    ensures
        r@ == jwt_of(secret@, sub@, iat, exp),
{
    let mut claims = serde_json::Map::new();
    claims.insert("sub".to_string(), serde_json::Value::from(sub));
    claims.insert("iat".to_string(), serde_json::Value::from(iat));
    claims.insert("exp".to_string(), serde_json::Value::from(exp));
    jsonwebtoken::encode(
        &jsonwebtoken::Header::default(),
        &serde_json::Value::Object(claims),
        &jsonwebtoken::EncodingKey::from_secret(secret.as_bytes()),
    )
    .unwrap()
}

/// How a decode result `r` reflects the model `dec` of what the decoder
/// makes of the token: the claims on success, a parse or signature error
/// on failure.
pub open spec fn decode_reflects(r: Result<TokenClaims, TokenError>, dec: Option<(Seq<char>, i64, i64)>) -> bool {
    match dec {
        Option::Some(c) => r matches Ok(tc) && tc.sub@ == c.0 && tc.iat == c.1 && tc.exp == c.2,
        Option::None => r matches Err(e) && (e == TokenError::Malformed
            || e == TokenError::InvalidSignature),
    }
}

/// A decode result `r` round-trips: whenever the token is exactly the one
/// `jsonwebtoken::encode` produces under the same secret for some claims
/// with a nonnegative expiry, `r` is those claims. The expiry bound
/// matters: the decoder reads the required `exp` claim as an unsigned
/// number, so a token carrying a negative one is rejected as malformed.
pub open spec fn decode_round_trips(r: Result<TokenClaims, TokenError>, secret: Seq<char>, token: Seq<char>) -> bool {
    forall|s: Seq<char>, i: i64, e: i64|
        0 <= e && token == jwt_of(secret, s, i, e) ==> (r matches Ok(tc) && tc.sub@ == s
            && tc.iat == i && tc.exp == e)
}

/// Relies on `jsonwebtoken::decode` with `Validation::new(Algorithm::HS256)`
/// and `validate_exp` turned off: the outcome depends on the secret and the
/// token alone; a token that `jsonwebtoken::encode` produced under the same
/// secret decodes back to exactly its claims; any failure is either a
/// parse failure or a signature mismatch.
#[verifier::external_body]
fn jwt_decode(secret: &str, token: &str) -> (r: Result<TokenClaims, TokenError>)
    ensures
        decode_reflects(r, jwt_dec(secret@, token@)),
        decode_round_trips(r, secret@, token@),
{
    let mut validation = Validation::new(Algorithm::HS256);
    validation.validate_exp = false;
    match decode::<Value>(token, &DecodingKey::from_secret(secret.as_bytes()), &validation) {
        Ok(d) => {
            let c = d.claims;
            match (c.get("sub").and_then(Value::as_str), c.get("iat").and_then(Value::as_i64), c.get("exp").and_then(Value::as_i64)) {
                (Some(s), Some(i), Some(e)) => Ok(TokenClaims { sub: s.to_string(), iat: i, exp: e }),
                _ => Err(TokenError::Malformed),
            }
        },
        Err(e) if matches!(e.kind(), ErrorKind::InvalidSignature) => Err(TokenError::InvalidSignature),
        Err(_) => Err(TokenError::Malformed),
    }
}

/// Issues and verifies session tokens under one signing secret and one
/// configured session length.
pub struct TokenService {
    pub secret: String,
    pub max_age_minutes: i64,
}

impl TokenService {
    /// The session length in seconds.
    pub open spec fn max_age_seconds(&self) -> int {
        60 * self.max_age_minutes
    }

    /// Issues a token for `subject` at time `now`: the claims are
    /// `issued_at = now` and `expires_at = now + max_age`, signed with
    /// the configured secret.
    pub fn issue(&self, subject: &str, now: i64) -> (token: String)
        requires
            0 <= now,
            0 <= self.max_age_minutes,
            now + self.max_age_seconds() <= i64::MAX,
        ensures
            token@ == jwt_of(self.secret@, subject@, now, (now + self.max_age_seconds()) as i64),
    {
        let exp: i64 = now + 60 * self.max_age_minutes;
        jwt_encode(self.secret.as_str(), subject, now, exp)
    }

    /// Verifies a token at time `now`. Fails with `Malformed` when the
    /// structure cannot be parsed, `InvalidSignature` when the signature
    /// check fails, `Expired` when `now` is past the expiry claim; on
    /// success returns the subject. In particular every token issued for
    /// subject `s` with expiry `e` under this secret verifies to `s` at
    /// any time up to `e`, and fails with `Expired` after it.
    pub fn verify(&self, token: &str, now: i64) -> (r: Result<String, TokenError>)
        ensures
            (match jwt_dec(self.secret@, token@) {
                Option::Some(c) => {
                    if now > c.2 {
                        r matches Err(e) && e == TokenError::Expired
                    } else {
                        r matches Ok(sub) && sub@ == c.0
                    }
                },
                Option::None => r matches Err(e) && (e == TokenError::Malformed
                    || e == TokenError::InvalidSignature),
            }),
            forall|s: Seq<char>, i: i64, e: i64|
                0 <= e && token@ == jwt_of(self.secret@, s, i, e) && now <= e ==> (r matches
                    Ok(sub) && sub@ == s),
            forall|s: Seq<char>, i: i64, e: i64|
                0 <= e && token@ == jwt_of(self.secret@, s, i, e) && now > e ==> (r matches
                    Err(err) && err == TokenError::Expired),
    {
        match jwt_decode(self.secret.as_str(), token) {
            Ok(claims) => {
                if now > claims.exp {
                    Err(TokenError::Expired)
                } else {
                    Ok(claims.sub)
                }
            },
            Err(e) => Err(e),
        }
    }

    /// The round-trip and expiry laws, as one checked statement: for any
    /// subject and any issue time, the token issued then verifies back to
    /// that subject at any point of its lifetime, and fails as `Expired`
    /// one second past it. Returns the two verification outcomes.
    pub fn issue_then_verify(&self, subject: &str, now: i64, later: i64) -> (r: (
        Result<String, TokenError>,
        Result<String, TokenError>,
    ))
        requires
            0 <= now <= later,
            0 <= self.max_age_minutes,
            later <= now + self.max_age_seconds(),
            now + self.max_age_seconds() + 1 <= i64::MAX,
        ensures
            r.0 matches Ok(s) && s@ == subject@,
            r.1 matches Err(e) && e == TokenError::Expired,
    {
        let token = self.issue(subject, now);
        let within_lifetime = self.verify(token.as_str(), later);
        let past_expiry = self.verify(token.as_str(), now + 60 * self.max_age_minutes + 1);
        (within_lifetime, past_expiry)
    }
}

} // verus!
