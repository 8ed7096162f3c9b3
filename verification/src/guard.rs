//! Auth guard: extracts and verifies the session token of an incoming
//! request, yielding the caller's identity or a single, uniform rejection.

use crate::token::{jwt_dec, TokenService};
use vstd::prelude::*;

verus! {

/// Failure of request authentication. An absent, malformed, badly signed
/// or expired token all collapse to this one outcome.
#[derive(Clone, Copy, Debug, PartialEq, Eq, Structural)]
pub enum AuthError {
    Unauthenticated,
}

/// The verified identity of an authenticated request.
pub struct AuthenticationGuard {
    pub user_id: String,
}

/// What `authenticate` must yield for a request whose `token` cookie is
/// `cookie`, at time `now`: the subject of a valid, unexpired token, and
/// `Unauthenticated` in every other case.
pub open spec fn authenticate_spec(
    r: Result<AuthenticationGuard, AuthError>,
    secret: Seq<char>,
    cookie: Option<&str>,
    now: i64,
) -> bool {
    match cookie {
        Option::Some(t) => match jwt_dec(secret, t@) {
            Option::Some(c) => {
                if now > c.2 {
                    r matches Err(e) && e == AuthError::Unauthenticated
                } else {
                    r matches Ok(g) && g.user_id@ == c.0
                }
            },
            Option::None => r matches Err(e) && e == AuthError::Unauthenticated,
        },
        Option::None => r matches Err(e) && e == AuthError::Unauthenticated,
    }
}

/// Authenticates a request from the value of its `token` cookie, if any.
/// A missing cookie, a token that does not parse, a failed signature
/// check and an expired token all yield `Unauthenticated`; a valid token
/// yields the subject it was issued for.
pub fn authenticate(service: &TokenService, cookie: Option<&str>, now: i64) -> (r: Result<
    AuthenticationGuard,
    AuthError,
>)
    ensures
        authenticate_spec(r, service.secret@, cookie, now),
{
    match cookie {
        Option::Some(t) => match service.verify(t, now) {
            Ok(subject) => Ok(AuthenticationGuard { user_id: subject }),
            Err(_) => Err(AuthError::Unauthenticated),
        },
        Option::None => Err(AuthError::Unauthenticated),
    }
}

} // verus!
