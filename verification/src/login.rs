//! Login orchestrator: the decision steps of the OAuth callback flow.
//!
//! The flow runs `Start -> CodeValidated -> TokenExchanged ->
//! ProfileFetched -> UserUpserted -> SessionIssued -> Redirected`, any
//! step able to fail into a terminal response. The calls out to the
//! identity provider and to the user store are I/O and live with the
//! HTTP layer; each decision between them is a function here, taking the
//! outcome of the call as an argument.

use crate::cookie;
use crate::cookie::SessionCookie;
use crate::token::{jwt_of, TokenService};
use crate::user::{ProviderProfile, UpstreamError, User};
use vstd::prelude::*;

verus! {

/// Process-wide configuration, read-only after startup: where to send the
/// browser back to, and how tokens are signed and scoped in time.
pub struct Config {
    pub client_origin: String,
    pub jwt_secret: String,
    pub jwt_max_age: i64,
}

/// The configured admin allowlist: the email addresses whose users are
/// granted the admin role at login time. Entries are matched
/// case-insensitively, whatever case they were configured in.
pub struct RuntimeConfig {
    pub admin_emails: Vec<String>,
}

/// The terminal outcome of the callback flow: a redirect carrying the
/// session cookie, or a failure response.
pub enum CallbackOutcome {
    Redirect { location: String, cookie: SessionCookie },
    Fail { status: u16, message: String },
}

/// The lowercase form that `str::to_lowercase` gives a text.
pub uninterp spec fn lower_of(s: Seq<char>) -> Seq<char>;

/// Relies on `str::to_lowercase`: the result depends on the characters
/// alone.
#[verifier::external_body]
fn lowercase(s: &str) -> (r: String)
    ensures
        r@ == lower_of(s@),
{
    s.to_lowercase()
}

/// Whether the lowercase form of some entry of `entries` reads exactly
/// as `needle`.
pub open spec fn contains_folded(entries: Seq<String>, needle: Seq<char>) -> bool {
    exists|i: int| 0 <= i < entries.len() && lower_of((#[trigger] entries[i])@) == needle
}

fn contains_string_folded(entries: &Vec<String>, needle: &String) -> (r: bool)
    ensures
        r == contains_folded(entries@, needle@),
{
    let mut idx: usize = 0;
    while idx < entries.len()
        invariant
            0 <= idx <= entries@.len(),
            forall|j: int| 0 <= j < idx ==> lower_of((#[trigger] entries@[j])@) != needle@,
        decreases entries@.len() - idx,
    {
        let entry = lowercase(entries[idx].as_str());
        if entry == *needle {
            assert(contains_folded(entries@, needle@)) by {
                assert(lower_of((entries@[idx as int])@) == needle@);
            }
            return true;
        }
        idx += 1;
    }
    false
}

/// Whether `email` belongs to the allowlist `allow`, compared
/// case-insensitively on both sides: the lowercase form of the email is
/// a member of the entries' lowercase forms.
pub open spec fn is_admin_email(allow: Seq<String>, email: Seq<char>) -> bool {
    contains_folded(allow, lower_of(email))
}

/// `Start -> CodeValidated`: the callback requires a non-empty
/// authorization code. An empty code ends the flow at once with a
/// `401 Unauthorized` failure; no call to the identity provider or the
/// store follows.
pub fn validate_code(code: &str) -> (r: Option<CallbackOutcome>)
    ensures
        code@.len() == 0 <==> r is Some,
        r matches Some(o) ==> o matches CallbackOutcome::Fail { status, message }
            && status == 401 && message@ == "Authorization code not provided!"@,
{
    if code.is_empty() {
        Some(CallbackOutcome::Fail {
            status: 401,
            message: "Authorization code not provided!".to_owned(),
        })
    } else {
        None
    }
}

/// A failed exchange or profile fetch ends the flow with `502 Bad
/// Gateway`, the upstream message passed through.
pub fn upstream_failed(err: &UpstreamError) -> (r: CallbackOutcome)
    ensures
        r matches CallbackOutcome::Fail { status, message } && status == 502
            && message@ == err.body@,
{
    CallbackOutcome::Fail { status: 502, message: err.body.clone() }
}

/// A failed store write ends the flow with `502 Bad Gateway` and a
/// generic message.
pub fn persistence_failed() -> (r: CallbackOutcome)
    ensures
        r matches CallbackOutcome::Fail { status, message } && status == 502
            && message@ == "Failed to insert to db"@,
{
    CallbackOutcome::Fail { status: 502, message: "Failed to insert to db".to_owned() }
}

/// `ProfileFetched -> UserUpserted`, the data step: the user row to
/// persist for a fetched profile. The admin role is derived here, once,
/// from membership of the profile email in the allowlist, both compared
/// in lowercase; `verified` is taken from the profile; every timestamp
/// is the login time.
pub fn build_user(profile: &ProviderProfile, allow: &RuntimeConfig, now: i64) -> (u: User)
    ensures
        u.id@ == profile.id@,
        u.email@ == profile.email@,
        u.name@ == profile.name@,
        u.photo@ == profile.picture@,
        u.verified == profile.verified_email,
        u.admin == is_admin_email(allow.admin_emails@, profile.email@),
        u.lastopen_ts == Option::Some(now),
        u.created_at == now,
        u.updated_at == now,
{
    let lower = lowercase(profile.email.as_str());
    let admin = contains_string_folded(&allow.admin_emails, &lower);
    User {
        id: profile.id.clone(),
        email: profile.email.clone(),
        name: profile.name.clone(),
        lastopen_ts: Some(now),
        photo: profile.picture.clone(),
        verified: profile.verified_email,
        created_at: now,
        updated_at: now,
        admin,
    }
}

/// `UserUpserted -> SessionIssued -> Redirected`: issue the session token
/// for the persisted user, build its cookie, and send the browser to the
/// configured origin with the caller-supplied `state` appended verbatim
/// as the path. Note `state` is used unvalidated, as an open-redirect
/// hardening point left to the caller.
pub fn complete_login(cfg: &Config, user_id: &str, state: &str, now: i64) -> (r: CallbackOutcome)
    requires
        0 <= now,
        0 <= cfg.jwt_max_age,
        now + 60 * cfg.jwt_max_age <= i64::MAX,
    ensures
        r matches CallbackOutcome::Redirect { location, cookie } && ({
            &&& location@ == cfg.client_origin@ + state@
            &&& cookie.name@ == "token"@
            &&& cookie.value@ == jwt_of(cfg.jwt_secret@, user_id@, now, (now + 60
                * cfg.jwt_max_age) as i64)
            &&& cookie.path@ == "/"@
            &&& cookie.max_age_seconds == 60 * cfg.jwt_max_age
            &&& cookie.http_only
            &&& cookie.secure
            &&& cookie.same_site_none
        }),
{
    let service = TokenService { secret: cfg.jwt_secret.clone(), max_age_minutes: cfg.jwt_max_age };
    let token = service.issue(user_id, now);
    let session_cookie = cookie::build(token.as_str(), cfg.jwt_max_age);
    let location = cfg.client_origin.clone().concat(state);
    CallbackOutcome::Redirect { location, cookie: session_cookie }
}

/// The response body shape of the current-user endpoint.
pub struct UserResponse {
    pub status: String,
    pub data: User,
}

/// The success response of the current-user endpoint: the user found for
/// the authenticated subject, wrapped with a `success` status.
pub fn me_response(user: User) -> (r: UserResponse)
    ensures
        r.status@ == "success"@,
        r.data == user,
{
    UserResponse { status: "success".to_owned(), data: user }
}

/// The failure response of the current-user endpoint: the authenticated
/// subject has no row in the store, so the endpoint answers `401` with a
/// `failed` status. Returns the HTTP status and the status text.
pub fn me_failure() -> (r: (u16, String))
    ensures
        r.0 == 401,
        r.1@ == "failed"@,
{
    (401, "failed".to_owned())
}

} // verus!
