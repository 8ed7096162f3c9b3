use auth_core::login::{
    build_user, complete_login, me_failure, me_response, persistence_failed, upstream_failed,
    validate_code, CallbackOutcome, Config, RuntimeConfig,
};
use auth_core::token::TokenService;
use auth_core::user::{ProviderProfile, UpstreamError};

fn config() -> Config {
    Config {
        client_origin: "http://localhost:5173".to_string(),
        jwt_secret: "callback-secret".to_string(),
        jwt_max_age: 60,
    }
}

fn profile() -> ProviderProfile {
    ProviderProfile {
        id: "u1".to_string(),
        email: "a@b.com".to_string(),
        verified_email: true,
        name: "Ann".to_string(),
        picture: "http://x/p.png".to_string(),
    }
}

#[test]
fn empty_code_fails_with_401() {
    let r = validate_code("").expect("empty code must end the flow");
    match r {
        CallbackOutcome::Fail { status, message } => {
            assert_eq!(status, 401);
            assert_eq!(message, "Authorization code not provided!");
        }
        CallbackOutcome::Redirect { .. } => panic!("empty code must not redirect"),
    }
}

#[test]
fn non_empty_code_proceeds() {
    assert!(validate_code("abc123").is_none());
}

#[test]
fn admin_derivation_is_case_insensitive() {
    let allow = RuntimeConfig { admin_emails: vec!["a@b.com".to_string()] };
    let mut p = profile();
    p.email = "A@B.com".to_string();
    let user = build_user(&p, &allow, 500);
    assert!(user.admin);
    assert_eq!(user.email, "A@B.com");
}

#[test]
fn uppercase_allowlist_entry_still_matches() {
    let allow = RuntimeConfig { admin_emails: vec!["A@B.com".to_string()] };
    let mut p = profile();
    p.email = "a@b.com".to_string();
    assert!(build_user(&p, &allow, 500).admin);
}

#[test]
fn unlisted_email_is_not_admin() {
    let allow = RuntimeConfig { admin_emails: vec!["a@b.com".to_string()] };
    let mut p = profile();
    p.email = "c@d.com".to_string();
    assert!(!build_user(&p, &allow, 500).admin);
}

#[test]
fn built_user_takes_profile_and_time() {
    let allow = RuntimeConfig { admin_emails: vec![] };
    let user = build_user(&profile(), &allow, 1_234);
    assert_eq!(user.id, "u1");
    assert_eq!(user.name, "Ann");
    assert_eq!(user.photo, "http://x/p.png");
    assert!(user.verified);
    assert!(!user.admin);
    assert_eq!(user.lastopen_ts, Some(1_234));
    assert_eq!(user.created_at, 1_234);
    assert_eq!(user.updated_at, 1_234);
}

#[test]
fn upstream_failure_passes_message_through() {
    let err = UpstreamError { status: 500, body: "idp exploded".to_string() };
    match upstream_failed(&err) {
        CallbackOutcome::Fail { status, message } => {
            assert_eq!(status, 502);
            assert_eq!(message, "idp exploded");
        }
        CallbackOutcome::Redirect { .. } => panic!("an upstream failure must not redirect"),
    }
}

#[test]
fn persistence_failure_is_generic_502() {
    match persistence_failed() {
        CallbackOutcome::Fail { status, message } => {
            assert_eq!(status, 502);
            assert_eq!(message, "Failed to insert to db");
        }
        CallbackOutcome::Redirect { .. } => panic!("a store failure must not redirect"),
    }
}

#[test]
fn end_to_end_callback() {
    // The whole success path of the callback, with the identity provider
    // and the store simulated by their results.
    let cfg = config();
    let allow = RuntimeConfig { admin_emails: vec!["a@b.com".to_string()] };
    let now = 1_700_000_000;

    assert!(validate_code("abc123").is_none());
    let exchanged: Result<(), UpstreamError> = Ok(());
    assert!(exchanged.is_ok());
    let user = build_user(&profile(), &allow, now);
    assert_eq!(user.id, "u1");
    assert!(user.admin);
    assert!(user.verified);

    match complete_login(&cfg, &user.id, "/dashboard", now) {
        CallbackOutcome::Redirect { location, cookie } => {
            assert_eq!(location, "http://localhost:5173/dashboard");
            assert_eq!(cookie.name, "token");
            assert_eq!(cookie.path, "/");
            assert_eq!(cookie.max_age_seconds, 3_600);
            assert!(cookie.http_only && cookie.secure && cookie.same_site_none);
            // the cookie's token decodes back to the persisted user's id
            let ts = TokenService { secret: cfg.jwt_secret.clone(), max_age_minutes: cfg.jwt_max_age };
            assert_eq!(ts.verify(&cookie.value, now), Ok("u1".to_string()));
        }
        CallbackOutcome::Fail { status, message } => {
            panic!("success path failed: {} {}", status, message)
        }
    }
}

#[test]
fn me_failure_is_401_failed() {
    let (status, label) = me_failure();
    assert_eq!(status, 401);
    assert_eq!(label, "failed");
}

#[test]
fn me_response_wraps_user() {
    let allow = RuntimeConfig { admin_emails: vec![] };
    let user = build_user(&profile(), &allow, 9);
    let resp = me_response(user);
    assert_eq!(resp.status, "success");
    assert_eq!(resp.data.id, "u1");
}
