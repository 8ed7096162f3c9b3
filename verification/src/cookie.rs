//! Session cookie manager: pure construction of the cookie value that
//! carries the session token, and of the cookie that clears it.

use vstd::prelude::*;

verus! {

/// The attributes of the HTTP cookie that carries the session token.
/// This is a plain value; turning it into a `Set-Cookie` header is left
/// to the HTTP layer.
pub struct SessionCookie {
    pub name: String,
    pub value: String,
    pub path: String,
    pub max_age_seconds: i64,
    pub http_only: bool,
    pub secure: bool,
    pub same_site_none: bool,
}

/// Builds the session cookie for a freshly issued token: name `token`,
/// path `/`, `HttpOnly`, `Secure`, `SameSite=None`, and a max-age of
/// sixty seconds per configured minute.
pub fn build(token: &str, max_age_minutes: i64) -> (c: SessionCookie)
    requires
        0 <= max_age_minutes,
        60 * max_age_minutes <= i64::MAX,
    ensures
        c.name@ == "token"@,
        c.value@ == token@,
        c.path@ == "/"@,
        c.max_age_seconds == 60 * max_age_minutes,
        c.http_only,
        c.secure,
        c.same_site_none,
{
    SessionCookie {
        name: "token".to_owned(),
        value: token.to_owned(),
        path: "/".to_owned(),
        max_age_seconds: 60 * max_age_minutes,
        http_only: true,
        secure: true,
        same_site_none: true,
    }
}

/// Builds the cookie that logs the client out: same name and attributes,
/// empty value, and a negative max-age so the client deletes it at once.
pub fn build_clear() -> (c: SessionCookie)
    ensures
        c.name@ == "token"@,
        c.value@ == Seq::<char>::empty(),
        c.path@ == "/"@,
        c.max_age_seconds == -1,
        c.http_only,
        c.secure,
        c.same_site_none,
{
    SessionCookie {
        name: "token".to_owned(),
        value: String::new(),
        path: "/".to_owned(),
        max_age_seconds: -1,
        http_only: true,
        secure: true,
        same_site_none: true,
    }
}

} // verus!
