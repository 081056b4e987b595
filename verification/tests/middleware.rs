use rust_auth::errors::AppError;
use rust_auth::flow::{CacheFailure, Command, Event, Step};
use rust_auth::jwt::{Claims, TokenFailure};
use rust_auth::middleware::{
    auth_middleware, auth_step, correlation_id, rate_limit_check, rate_limit_key, rate_limited_response,
    strip_bearer, AuthGate, RateDecision,
};

fn claims() -> Claims {
    Claims {
        sub: "00000000-0000-0000-0000-000000000001".into(),
        email: "a@b.co".into(),
        session_id: "00000000-0000-0000-0000-000000000002".into(),
        role: "user".into(),
        exp: 2,
        iat: 1,
        iss: "rust-auth".into(),
        aud: "asepharyana.my.id".into(),
    }
}

#[test]
fn bearer_tokens_are_taken_from_the_header() {
    assert_eq!(strip_bearer("Bearer abc"), Some("abc"));
    assert_eq!(strip_bearer("Bearer "), Some(""));
    assert_eq!(strip_bearer("bearer abc"), None);
    assert_eq!(strip_bearer("Basic abc"), None);
    assert_eq!(strip_bearer("Bear"), None);
}

#[test]
fn missing_or_malformed_headers_are_refused() {
    assert!(matches!(auth_middleware(None), Step::Finish(Err(AppError::Unauthorized))));
    assert!(matches!(auth_middleware(Some("Token x")), Step::Finish(Err(AppError::InvalidToken))));
    match auth_middleware(Some("Bearer tok")) {
        Step::Continue(AuthGate::Decoding, Command::DecodeAccessToken(t)) => assert_eq!(t, "tok"),
        other => panic!("{other:?}"),
    }
}

#[test]
fn tokens_pass_only_with_a_live_session() {
    assert!(matches!(
        auth_step(AuthGate::Decoding, Event::Decoded(Err(TokenFailure::Expired))),
        Step::Finish(Err(AppError::TokenExpired))
    ));
    assert!(matches!(
        auth_step(AuthGate::Decoding, Event::Decoded(Err(TokenFailure::Invalid))),
        Step::Finish(Err(AppError::InvalidToken))
    ));
    let (gate, key) = match auth_step(AuthGate::Decoding, Event::Decoded(Ok(claims()))) {
        Step::Continue(g, Command::SessionExists { key }) => (g, key),
        other => panic!("{other:?}"),
    };
    assert_eq!(key, "session:00000000-0000-0000-0000-000000000002");
    assert!(matches!(
        auth_step(gate.clone(), Event::Exists(Ok(false))),
        Step::Finish(Err(AppError::InvalidToken))
    ));
    assert!(matches!(
        auth_step(gate.clone(), Event::Exists(Err(CacheFailure::NoConnection))),
        Step::Finish(Err(AppError::InternalError(m))) if m == "Redis unavailable"
    ));
    assert!(matches!(
        auth_step(gate.clone(), Event::Exists(Err(CacheFailure::CommandFailed))),
        Step::Finish(Err(AppError::InternalError(m))) if m == "Cache error"
    ));
    match auth_step(gate, Event::Exists(Ok(true))) {
        Step::Finish(Ok(c)) => assert_eq!(c.sub, claims().sub),
        other => panic!("{other:?}"),
    }
}

#[test]
fn rate_limit_decisions() {
    assert_eq!(rate_limit_check(Ok(1)), RateDecision { allow: true, start_window: true });
    assert_eq!(rate_limit_check(Ok(2)), RateDecision { allow: true, start_window: false });
    assert_eq!(rate_limit_check(Ok(100)), RateDecision { allow: true, start_window: false });
    assert_eq!(rate_limit_check(Ok(101)), RateDecision { allow: false, start_window: false });
    assert_eq!(
        rate_limit_check(Err(CacheFailure::NoConnection)),
        RateDecision { allow: true, start_window: false }
    );
    assert_eq!(rate_limit_key(Some("10.0.0.1")), "ratelimit:10.0.0.1");
    assert_eq!(rate_limit_key(None), "ratelimit:unknown");
    let r = rate_limited_response();
    assert_eq!(r.status, 429);
    assert_eq!(r.code, "RATE_LIMIT_EXCEEDED");
    assert_eq!(r.message, "Too many requests. Please slow down.");
}

#[test]
fn correlation_ids() {
    assert_eq!(correlation_id(Some("req-1")).0, "req-1");
    let fresh = correlation_id(None).0;
    let parsed = uuid::Uuid::parse_str(&fresh).unwrap();
    assert_eq!(parsed.get_version_num(), 4);
    assert_eq!(parsed.get_variant(), uuid::Variant::RFC4122);
    assert_eq!(fresh, parsed.to_string());
    assert_ne!(correlation_id(None).0, fresh);
}

#[test]
fn a_window_lets_the_first_hundred_through() {
    let decisions: Vec<_> = (1..=150u64).map(|n| rate_limit_check(Ok(n))).collect();
    assert_eq!(decisions.iter().filter(|d| d.allow).count(), 100);
    assert!(decisions[..100].iter().all(|d| d.allow));
    assert!(decisions[100..].iter().all(|d| !d.allow));
    assert_eq!(decisions.iter().filter(|d| d.start_window).count(), 1);
    assert!(decisions[0].start_window);
}
