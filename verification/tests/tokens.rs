use rust_auth::config::JwtSettings;
use rust_auth::crypto::hash_token;
use rust_auth::errors::AppError;
use rust_auth::jwt::Claims;
use rust_auth::user::controller::subject_user_id;
use rust_auth::jwt::{
    access_claims, access_token_error, expiry_fits, refresh_claims, refresh_token_error, session_key,
    TokenFailure,
};
use rust_auth::auth::service::AuthService;

fn settings() -> JwtSettings {
    JwtSettings {
        secret: "s".into(),
        access_expiration: 900,
        refresh_expiration: 604800,
        issuer: "rust-auth".into(),
        audience: "asepharyana.my.id".into(),
    }
}

#[test]
fn token_hash_is_hex_sha256() {
    assert_eq!(
        hash_token("abc"),
        "ba7816bf8f01cfea414140de5dae2223b00361a396177a9cb410ff61f20015ad"
    );
    assert_eq!(
        hash_token(""),
        "e3b0c44298fc1c149afbf4c8996fb92427ae41e4649b934ca495991b7852b855"
    );
    assert_eq!(hash_token("some.refresh.token").len(), 64);
    assert_eq!(hash_token("t"), hash_token("t"));
}

fn subject(sub: &str) -> Claims {
    Claims {
        sub: sub.into(),
        email: String::new(),
        session_id: String::new(),
        role: String::new(),
        exp: 0,
        iat: 0,
        iss: String::new(),
        aud: String::new(),
    }
}

#[test]
fn identifiers_read_back() {
    let id: u128 = 0xa1a2a3a4b1b2c1c2d1d2d3d4d5d6d7d8;
    let c = access_claims(id, "a@b.co", 0, "user", 0, &settings());
    assert_eq!(c.sub, "a1a2a3a4-b1b2-c1c2-d1d2-d3d4d5d6d7d8");
    assert_eq!(c.session_id, "00000000-0000-0000-0000-000000000000");
    assert!(matches!(subject_user_id(&subject("a1a2a3a4-b1b2-c1c2-d1d2-d3d4d5d6d7d8")), Ok(x) if x == id));
    assert!(matches!(subject_user_id(&subject(&c.sub)), Ok(x) if x == id));
    match subject_user_id(&subject("not-a-uuid")) {
        Err(AppError::InternalError(m)) => assert_eq!(m, "Invalid user ID in token"),
        other => panic!("unexpected {other:?}"),
    }
}

#[test]
fn access_claims_name_user_and_session() {
    let c = access_claims(1, "a@b.co", 2, "admin", 1_700_000_000, &settings());
    assert_eq!(c.sub, "00000000-0000-0000-0000-000000000001");
    assert_eq!(c.session_id, "00000000-0000-0000-0000-000000000002");
    assert_eq!(c.email, "a@b.co");
    assert_eq!(c.role, "admin");
    assert_eq!(c.iat, 1_700_000_000);
    assert_eq!(c.exp, 1_700_000_900);
    assert_eq!(c.iss, "rust-auth");
    assert_eq!(c.aud, "asepharyana.my.id");
}

#[test]
fn refresh_claims_carry_no_email_or_role() {
    let c = refresh_claims(1, 2, 1_700_000_000, &settings());
    assert_eq!(c.email, "");
    assert_eq!(c.role, "");
    assert_eq!(c.exp, 1_700_604_800);
    assert_eq!(c.sub, "00000000-0000-0000-0000-000000000001");
}

#[test]
fn token_failures_map_to_errors() {
    assert!(matches!(access_token_error(TokenFailure::Expired), AppError::TokenExpired));
    assert!(matches!(access_token_error(TokenFailure::Invalid), AppError::InvalidToken));
    assert!(matches!(refresh_token_error(TokenFailure::Expired), AppError::InvalidRefreshToken));
    assert!(matches!(refresh_token_error(TokenFailure::Invalid), AppError::InvalidRefreshToken));
}

#[test]
fn session_keys() {
    assert_eq!(session_key("abc"), "session:abc");
}

#[test]
fn expiry_must_be_a_representable_date() {
    assert!(expiry_fits(0, 900));
    assert!(expiry_fits(1_700_000_000, 604800));
    assert!(expiry_fits(8_210_298_412_799 - 900, 900));
    assert!(!expiry_fits(8_210_298_412_799 - 899, 900));
    assert!(expiry_fits(-8_334_632_851_200 + 900, -900));
    assert!(!expiry_fits(-8_334_632_851_200, -1));
    assert!(!expiry_fits(0, i64::MAX / 1000 + 1));
    assert!(!expiry_fits(0, i64::MAX / 1000));
}

#[test]
fn issuing_starts_with_a_fresh_random_session_and_a_clock_reading() {
    let svc = AuthService::new(settings());
    let user = rust_auth::model::User {
        id: 7,
        username: "u".into(),
        email: "u@example.com".into(),
        password_hash: "h".into(),
        role: "user".into(),
        status: "active".into(),
        email_verified: false,
        last_login_at: None,
        created_at: String::new(),
        updated_at: String::new(),
    };
    let (i, c) = svc.begin_issue(user.clone(), None, None);
    assert!(matches!(c, rust_auth::flow::Command::ReadClock { lifetime: 900 }));
    assert_eq!((i.session_id >> 76) & 0xf, 4);
    assert_eq!((i.session_id >> 62) & 0x3, 2);
    let (j, _) = svc.begin_issue(user, None, None);
    assert_ne!(i.session_id, j.session_id);
}
