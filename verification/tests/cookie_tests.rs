use auth_core::cookie::{build, build_clear};

#[test]
fn session_cookie_has_the_documented_attributes() {
    let c = build("header.payload.signature", 120);
    assert_eq!(c.name, "token");
    assert_eq!(c.value, "header.payload.signature");
    assert_eq!(c.path, "/");
    assert_eq!(c.max_age_seconds, 7_200);
    assert!(c.http_only);
    assert!(c.secure);
    assert!(c.same_site_none);
}

#[test]
fn clear_cookie_deletes_client_side() {
    let c = build_clear();
    assert_eq!(c.name, "token");
    assert_eq!(c.value, "");
    assert_eq!(c.path, "/");
    assert_eq!(c.max_age_seconds, -1);
    assert!(c.http_only);
    assert!(c.secure);
    assert!(c.same_site_none);
}
