use auth_core::user::{RawUser, User};

fn raw() -> RawUser {
    RawUser {
        id: "u1".to_string(),
        email: "a@b.com".to_string(),
        name: "Ann".to_string(),
        lastopen_ts: Some("2024-01-01T00:10:00+00:00".to_string()),
        photo: "http://x/p.png".to_string(),
        verified: 1,
        created_at: "2024-01-01T00:00:00+00:00".to_string(),
        updated_at: "2024-01-02T00:00:00+00:00".to_string(),
        admin: 0,
    }
}

#[test]
fn raw_row_parses_into_user() {
    let user = User::from(raw());
    assert_eq!(user.id, "u1");
    assert_eq!(user.email, "a@b.com");
    assert_eq!(user.name, "Ann");
    assert_eq!(user.photo, "http://x/p.png");
    assert_eq!(user.created_at, 1_704_067_200);
    assert_eq!(user.updated_at, 1_704_153_600);
    assert_eq!(user.lastopen_ts, Some(1_704_067_800));
    assert!(user.verified);
    assert!(!user.admin);
}

#[test]
fn unparseable_timestamp_becomes_epoch() {
    let mut r = raw();
    r.created_at = "not a timestamp".to_string();
    r.lastopen_ts = None;
    let user = User::from(r);
    assert_eq!(user.created_at, 0);
    assert_eq!(user.lastopen_ts, None);
}

#[test]
fn flag_integers_other_than_one_read_false() {
    let mut r = raw();
    r.verified = 0;
    r.admin = 2;
    let user = User::from(r);
    assert!(!user.verified);
    assert!(!user.admin);
}

#[test]
fn user_lays_out_as_raw_row() {
    let user = User::from(raw());
    let back = User { admin: true, ..user }.to_raw();
    assert_eq!(back.id, "u1");
    assert_eq!(back.created_at, "2024-01-01T00:00:00+00:00");
    assert_eq!(back.updated_at, "2024-01-02T00:00:00+00:00");
    assert_eq!(back.lastopen_ts, Some("2024-01-01T00:10:00+00:00".to_string()));
    assert_eq!(back.verified, 1);
    assert_eq!(back.admin, 1);
}

#[test]
fn row_conversion_round_trips() {
    let user = User::from(raw());
    let again = User::from(user.clone().to_raw());
    assert_eq!(again.id, user.id);
    assert_eq!(again.email, user.email);
    assert_eq!(again.name, user.name);
    assert_eq!(again.photo, user.photo);
    assert_eq!(again.lastopen_ts, user.lastopen_ts);
    assert_eq!(again.created_at, user.created_at);
    assert_eq!(again.updated_at, user.updated_at);
    assert_eq!(again.verified, user.verified);
    assert_eq!(again.admin, user.admin);
}

#[test]
fn row_round_trip_law_holds_on_a_concrete_user() {
    let user = User::from(raw());
    let again = auth_core::user::row_round_trip(user.clone());
    assert_eq!(again.id, user.id);
    assert_eq!(again.created_at, user.created_at);
    assert_eq!(again.updated_at, user.updated_at);
    assert_eq!(again.lastopen_ts, user.lastopen_ts);
    assert_eq!(again.verified, user.verified);
    assert_eq!(again.admin, user.admin);
}

#[test]
fn touch_lastopen_records_the_time() {
    let mut user = User::from(raw());
    auth_core::user::touch_lastopen(&mut user, 42);
    assert_eq!(user.lastopen_ts, Some(42));
    assert_eq!(user.id, "u1");
    assert_eq!(user.created_at, 1_704_067_200);
}
