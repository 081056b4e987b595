use rust_auth::auth::login::LoginFlow;
use rust_auth::auth::register::RegisterFlow;
use rust_auth::auth::service::AuthService;
use rust_auth::config::JwtSettings;
use rust_auth::crypto::hash_token;
use rust_auth::errors::AppError;
use rust_auth::flow::{CacheFailure, Command, Event, Step};
use rust_auth::jwt::{Claims, TokenFailure};
use rust_auth::model::{Session, User};
use rust_auth::schemas::{AuthResponse, LoginRequest, RegisterRequest};

const NOW: i64 = 1_700_000_000;

fn service() -> AuthService {
    AuthService::new(JwtSettings {
        secret: "s".into(),
        access_expiration: 900,
        refresh_expiration: 604800,
        issuer: "rust-auth".into(),
        audience: "asepharyana.my.id".into(),
    })
}

fn user(id: u128, status: &str) -> User {
    User {
        id,
        username: "john_doe".into(),
        email: "john@example.com".into(),
        password_hash: "HASH".into(),
        role: "user".into(),
        status: status.into(),
        email_verified: false,
        last_login_at: None,
        created_at: "2024-01-01T00:00:00+00:00".into(),
        updated_at: "2024-01-01T00:00:00+00:00".into(),
    }
}

fn session(id: u128, user_id: u128) -> Session {
    Session {
        id,
        user_id,
        refresh_token_hash: "h".into(),
        device_fingerprint: None,
        ip_address: None,
        user_agent: None,
        is_revoked: false,
        issued_at: "2024-01-01T00:00:00+00:00".into(),
        expires_at: "2024-01-08T00:00:00+00:00".into(),
        created_at: "2024-01-01T00:00:00+00:00".into(),
    }
}

fn request() -> RegisterRequest {
    RegisterRequest {
        username: "john_doe".into(),
        email: "john@example.com".into(),
        password: "Abcdef1!".into(),
    }
}

/// Drives a flow to its end, answering each command with `answer`.
fn drive<S, R>(
    mut step: Step<S, R>,
    mut next: impl FnMut(S, Event) -> Step<S, R>,
    mut answer: impl FnMut(&Command) -> Event,
    log: &mut Vec<Command>,
) -> Result<R, AppError> {
    loop {
        match step {
            Step::Finish(r) => return r,
            Step::Continue(s, cmd) => {
                let ev = answer(&cmd);
                assert_eq!(ev.kind(), cmd.reply_kind());
                log.push(cmd);
                step = next(s, ev);
            }
        }
    }
}

/// Answers as a healthy store and cache would, for an account `u`.
fn happy(u: &User, found: Option<User>) -> impl FnMut(&Command) -> Event + '_ {
    move |cmd| match cmd {
        Command::FindUserByEmail(_) | Command::FindUserByUsername(_) => Event::User(Ok(found.clone())),
        Command::FindUserById(_) => Event::User(Ok(Some(u.clone()))),
        Command::HashPassword(p) => Event::PasswordHash(Ok(format!("hashed:{p}"))),
        Command::VerifyPassword { .. } => Event::PasswordCheck(Ok(true)),
        Command::CreateUser { .. } => Event::CreatedUser(Ok(u.clone())),
        Command::UpdateLastLogin(_) | Command::RevokeSession(_) => Event::Written(Ok(())),
        Command::ReadClock { .. } => Event::Clock(NOW),
        Command::EncodeAccessToken(c) => Event::Token(Ok(format!("access:{}", c.session_id))),
        Command::EncodeRefreshToken(c) => Event::Token(Ok(format!("refresh:{}", c.session_id))),
        Command::CreateSession { id, user_id, .. } => Event::CreatedSession(Ok(session(*id, *user_id))),
        Command::CacheSession { .. } | Command::EvictSession { .. } => Event::Cached(Ok(())),
        Command::DecodeRefreshToken(_) => Event::Decoded(Ok(Claims {
            sub: uuid::Uuid::from_u128(u.id).to_string(),
            email: String::new(),
            session_id: "00000000-0000-0000-0000-000000000009".into(),
            role: String::new(),
            exp: 0,
            iat: 0,
            iss: String::new(),
            aud: String::new(),
        })),
        Command::FindSessionByRefreshHash(_) => Event::FoundSession(Ok(Some(session(9, u.id)))),
        other => panic!("unexpected {other:?}"),
    }
}

fn check_issued(resp: &AuthResponse, log: &[Command]) {
    assert_eq!(resp.status, "success");
    assert_eq!(resp.data.expires_in, 900);
    let (sid, hash) = log
        .iter()
        .find_map(|c| match c {
            Command::CreateSession { id, refresh_token_hash, .. } => Some((*id, refresh_token_hash.clone())),
            _ => None,
        })
        .unwrap();
    let sid_text = uuid::Uuid::from_u128(sid).to_string();
    assert_eq!(resp.data.access_token, format!("access:{sid_text}"));
    assert_eq!(resp.data.refresh_token, format!("refresh:{sid_text}"));
    assert_eq!(hash, hash_token(&resp.data.refresh_token));
    let cached = log
        .iter()
        .find_map(|c| match c {
            Command::CacheSession { key, access_token, ttl } => Some((key.clone(), access_token.clone(), *ttl)),
            _ => None,
        })
        .unwrap();
    assert_eq!(cached, (format!("session:{sid_text}"), resp.data.access_token.clone(), 900));
}

#[test]
fn registration_creates_the_account_and_its_first_session() {
    let svc = service();
    let u = user(7, "active");
    let mut log = Vec::new();
    let start = svc.register(request(), Some("1.2.3.4".into()), None);
    let resp = drive(start, |f: RegisterFlow, ev| svc.register_step(f, ev), happy(&u, None), &mut log).unwrap();
    assert_eq!(resp.data.user.id, 7);
    assert_eq!(resp.data.user.username, "john_doe");
    assert!(matches!(&log[0], Command::FindUserByEmail(e) if e == "john@example.com"));
    assert!(matches!(&log[1], Command::FindUserByUsername(n) if n == "john_doe"));
    assert!(matches!(&log[2], Command::HashPassword(p) if p == "Abcdef1!"));
    assert!(matches!(&log[3], Command::CreateUser { password_hash, .. } if password_hash == "hashed:Abcdef1!"));
    assert!(matches!(&log[4], Command::ReadClock { lifetime: 900 }));
    assert!(matches!(&log[5], Command::EncodeAccessToken(c) if c.iat == NOW as usize && c.exp == NOW as usize + 900));
    assert!(matches!(&log[6], Command::ReadClock { lifetime: 604800 }));
    assert!(matches!(&log[7], Command::EncodeRefreshToken(c) if c.email.is_empty() && c.exp == NOW as usize + 604800));
    assert!(matches!(&log[8], Command::CreateSession { ip_address: Some(ip), .. } if ip == "1.2.3.4"));
    check_issued(&resp, &log);
}

#[test]
fn registration_refuses_bad_or_taken_accounts() {
    let svc = service();
    let mut bad = request();
    bad.email = "invalid".into();
    assert!(matches!(svc.register(bad, None, None), Step::Finish(Err(AppError::ValidationError(_)))));
    let mut weak = request();
    weak.password = "weak".into();
    assert!(matches!(svc.register(weak, None, None), Step::Finish(Err(AppError::ValidationError(_)))));

    let u = user(7, "active");
    let mut log = Vec::new();
    let r = drive(
        svc.register(request(), None, None),
        |f: RegisterFlow, ev| svc.register_step(f, ev),
        happy(&u, Some(u.clone())),
        &mut log,
    );
    assert!(matches!(r, Err(AppError::AccountAlreadyExists)));
    assert_eq!(log.len(), 1);

    let mut log = Vec::new();
    let mut first = true;
    let r = drive(
        svc.register(request(), None, None),
        |f: RegisterFlow, ev| svc.register_step(f, ev),
        |_cmd: &Command| {
            let found = if first { None } else { Some(u.clone()) };
            first = false;
            Event::User(Ok(found))
        },
        &mut log,
    );
    assert!(matches!(r, Err(AppError::ValidationError(m)) if m == "Username already taken"));
}

#[test]
fn registration_reports_outside_failures() {
    let svc = service();
    let u = user(7, "active");
    let mut log = Vec::new();
    let mut base = happy(&u, None);
    let r = drive(
        svc.register(request(), None, None),
        |f: RegisterFlow, ev| svc.register_step(f, ev),
        |cmd: &Command| match cmd {
            Command::HashPassword(_) => Event::PasswordHash(Err("no memory".into())),
            c => base(c),
        },
        &mut log,
    );
    assert!(matches!(r, Err(AppError::InternalError(m)) if m == "Password hashing failed: no memory"));

    let mut base = happy(&u, None);
    let r = drive(
        svc.register(request(), None, None),
        |f: RegisterFlow, ev| svc.register_step(f, ev),
        |cmd: &Command| match cmd {
            Command::EncodeAccessToken(_) => Event::Token(Err("bad key".into())),
            c => base(c),
        },
        &mut Vec::new(),
    );
    assert!(matches!(r, Err(AppError::InternalError(m)) if m == "Token creation failed: bad key"));

    let mut base = happy(&u, None);
    let r = drive(
        svc.register(request(), None, None),
        |f: RegisterFlow, ev| svc.register_step(f, ev),
        |cmd: &Command| match cmd {
            Command::EncodeRefreshToken(_) => Event::Token(Err("bad key".into())),
            c => base(c),
        },
        &mut Vec::new(),
    );
    assert!(matches!(r, Err(AppError::InternalError(m)) if m == "Refresh token creation failed: bad key"));

    let mut base = happy(&u, None);
    let r = drive(
        svc.register(request(), None, None),
        |f: RegisterFlow, ev| svc.register_step(f, ev),
        |cmd: &Command| match cmd {
            Command::CacheSession { .. } => Event::Cached(Err(CacheFailure::NoConnection)),
            c => base(c),
        },
        &mut Vec::new(),
    );
    assert!(matches!(r, Err(AppError::InternalError(m)) if m == "Redis connection failed"));

    let mut base = happy(&u, None);
    let r = drive(
        svc.register(request(), None, None),
        |f: RegisterFlow, ev| svc.register_step(f, ev),
        |cmd: &Command| match cmd {
            Command::CacheSession { .. } => Event::Cached(Err(CacheFailure::CommandFailed)),
            c => base(c),
        },
        &mut Vec::new(),
    );
    assert!(matches!(r, Err(AppError::InternalError(m)) if m == "Redis cache set failed"));

    let mut base = happy(&u, None);
    let r = drive(
        svc.register(request(), None, None),
        |f: RegisterFlow, ev| svc.register_step(f, ev),
        |cmd: &Command| match cmd {
            Command::CreateUser { .. } => Event::CreatedUser(Err(AppError::DatabaseError("dup".into()))),
            c => base(c),
        },
        &mut Vec::new(),
    );
    assert!(matches!(r, Err(AppError::DatabaseError(m)) if m == "dup"));
}

fn login_request() -> LoginRequest {
    LoginRequest { email: "john@example.com".into(), password: "Abcdef1!".into() }
}

#[test]
fn login_issues_a_session_for_the_right_password() {
    let svc = service();
    let u = user(7, "active");
    let mut log = Vec::new();
    let resp = drive(
        svc.login(login_request(), None, Some("agent".into())),
        |f: LoginFlow, ev| svc.login_step(f, ev),
        happy(&u, Some(u.clone())),
        &mut log,
    )
    .unwrap();
    assert!(matches!(&log[1], Command::VerifyPassword { password, hash } if password == "Abcdef1!" && hash == "HASH"));
    assert!(matches!(&log[2], Command::UpdateLastLogin(7)));
    check_issued(&resp, &log);
}

#[test]
fn login_refusals() {
    let svc = service();
    let u = user(7, "active");
    // unknown email and wrong password give the same answer
    let r = drive(
        svc.login(login_request(), None, None),
        |f: LoginFlow, ev| svc.login_step(f, ev),
        |_c: &Command| Event::User(Ok(None)),
        &mut Vec::new(),
    );
    assert!(matches!(r, Err(AppError::InvalidCredentials)));
    let mut base = happy(&u, Some(u.clone()));
    let r = drive(
        svc.login(login_request(), None, None),
        |f: LoginFlow, ev| svc.login_step(f, ev),
        |cmd: &Command| match cmd {
            Command::VerifyPassword { .. } => Event::PasswordCheck(Ok(false)),
            c => base(c),
        },
        &mut Vec::new(),
    );
    assert!(matches!(r, Err(AppError::InvalidCredentials)));
    // locked accounts, once the password is right
    let locked = user(7, "locked");
    let mut log = Vec::new();
    let r = drive(
        svc.login(login_request(), None, None),
        |f: LoginFlow, ev| svc.login_step(f, ev),
        happy(&locked, Some(locked.clone())),
        &mut log,
    );
    assert!(matches!(r, Err(AppError::AccountLocked)));
    assert_eq!(log.len(), 2);
    let mut base = happy(&u, Some(u.clone()));
    let r = drive(
        svc.login(login_request(), None, None),
        |f: LoginFlow, ev| svc.login_step(f, ev),
        |cmd: &Command| match cmd {
            Command::VerifyPassword { .. } => Event::PasswordCheck(Err("corrupt hash".into())),
            c => base(c),
        },
        &mut Vec::new(),
    );
    assert!(matches!(r, Err(AppError::InternalError(m)) if m == "Password verification failed"));
}

#[test]
fn refresh_rotates_the_session() {
    let svc = service();
    let u = user(7, "active");
    let mut log = Vec::new();
    let r = drive(
        svc.refresh("old-token"),
        |f, ev| svc.refresh_step(f, ev),
        happy(&u, None),
        &mut log,
    )
    .unwrap();
    assert!(matches!(&log[0], Command::DecodeRefreshToken(t) if t == "old-token"));
    assert!(matches!(&log[1], Command::FindSessionByRefreshHash(h) if *h == hash_token("old-token")));
    assert!(matches!(&log[2], Command::FindUserById(7)));
    assert!(matches!(&log[3], Command::RevokeSession(9)));
    assert!(
        matches!(&log[4], Command::EvictSession { key } if key == "session:00000000-0000-0000-0000-000000000009")
    );
    assert!(matches!(&log[5], Command::ReadClock { .. }));
    assert!(matches!(&log[6], Command::EncodeAccessToken(_)));
    assert!(matches!(&log[9], Command::CreateSession { ip_address: None, user_agent: None, .. }));
    assert_eq!(r.expires_in, 900);
    assert!(r.refresh_token.starts_with("refresh:"));
}

#[test]
fn refresh_refusals() {
    let svc = service();
    let u = user(7, "active");
    let r = drive(
        svc.refresh("t"),
        |f, ev| svc.refresh_step(f, ev),
        |_c: &Command| Event::Decoded(Err(TokenFailure::Expired)),
        &mut Vec::new(),
    );
    assert!(matches!(r, Err(AppError::InvalidRefreshToken)));
    let mut base = happy(&u, None);
    let r = drive(
        svc.refresh("t"),
        |f, ev| svc.refresh_step(f, ev),
        |cmd: &Command| match cmd {
            Command::FindSessionByRefreshHash(_) => Event::FoundSession(Ok(None)),
            c => base(c),
        },
        &mut Vec::new(),
    );
    assert!(matches!(r, Err(AppError::InvalidRefreshToken)));
    let mut base = happy(&u, None);
    let r = drive(
        svc.refresh("t"),
        |f, ev| svc.refresh_step(f, ev),
        |cmd: &Command| match cmd {
            Command::FindUserById(_) => Event::User(Ok(None)),
            c => base(c),
        },
        &mut Vec::new(),
    );
    assert!(matches!(r, Err(AppError::InvalidRefreshToken)));
    let mut base = happy(&u, None);
    let r = drive(
        svc.refresh("t"),
        |f, ev| svc.refresh_step(f, ev),
        |cmd: &Command| match cmd {
            Command::DecodeRefreshToken(_) => Event::Decoded(Ok(Claims {
                sub: "nobody".into(),
                email: String::new(),
                session_id: String::new(),
                role: String::new(),
                exp: 0,
                iat: 0,
                iss: String::new(),
                aud: String::new(),
            })),
            c => base(c),
        },
        &mut Vec::new(),
    );
    assert!(matches!(r, Err(AppError::InvalidRefreshToken)));
    // a failed eviction does not stop the refresh
    let mut base = happy(&u, None);
    let r = drive(
        svc.refresh("t"),
        |f, ev| svc.refresh_step(f, ev),
        |cmd: &Command| match cmd {
            Command::EvictSession { .. } => Event::Cached(Err(CacheFailure::NoConnection)),
            c => base(c),
        },
        &mut Vec::new(),
    );
    assert!(r.is_ok());
}

#[test]
fn logout_revokes_the_session_it_finds() {
    let svc = service();
    let u = user(7, "active");
    let mut log = Vec::new();
    let r = drive(svc.logout("tok"), |f, ev| svc.logout_step(f, ev), happy(&u, None), &mut log).unwrap();
    assert_eq!(r.status, "success");
    assert_eq!(r.message, "Logged out successfully");
    assert!(matches!(&log[0], Command::FindSessionByRefreshHash(h) if *h == hash_token("tok")));
    assert!(matches!(&log[1], Command::RevokeSession(9)));
    assert!(matches!(&log[2], Command::EvictSession { .. }));

    let mut log = Vec::new();
    let r = drive(
        svc.logout("tok"),
        |f, ev| svc.logout_step(f, ev),
        |_c: &Command| Event::FoundSession(Ok(None)),
        &mut log,
    )
    .unwrap();
    assert_eq!(r.message, "Logged out successfully");
    assert_eq!(log.len(), 1);

    let r = drive(
        svc.logout("tok"),
        |f, ev| svc.logout_step(f, ev),
        |_c: &Command| Event::FoundSession(Err(AppError::DatabaseError("down".into()))),
        &mut Vec::new(),
    );
    assert!(matches!(r, Err(AppError::DatabaseError(_))));
}

/// Answers store commands from a session table of `(id, hash, revoked)`
/// rows, and everything else as `happy` does.
fn with_table<'a>(
    u: &'a User,
    table: &'a std::cell::RefCell<Vec<(u128, String, bool)>>,
) -> impl FnMut(&Command) -> Event + 'a {
    let mut base = happy(u, None);
    move |cmd| match cmd {
        Command::FindSessionByRefreshHash(h) => Event::FoundSession(Ok(table
            .borrow()
            .iter()
            .find(|(_, hash, revoked)| hash == h && !revoked)
            .map(|(id, _, _)| session(*id, u.id)))),
        Command::RevokeSession(id) => {
            for row in table.borrow_mut().iter_mut() {
                if row.0 == *id {
                    row.2 = true;
                }
            }
            Event::Written(Ok(()))
        }
        Command::CreateSession { id, user_id, refresh_token_hash, .. } => {
            table.borrow_mut().push((*id, refresh_token_hash.clone(), false));
            Event::CreatedSession(Ok(session(*id, *user_id)))
        }
        c => base(c),
    }
}

#[test]
fn a_refresh_token_is_exchanged_once() {
    let svc = service();
    let u = user(7, "active");
    let table = std::cell::RefCell::new(vec![(9u128, hash_token("old-token"), false)]);
    let first = drive(
        svc.refresh("old-token"),
        |f, ev| svc.refresh_step(f, ev),
        with_table(&u, &table),
        &mut Vec::new(),
    );
    assert!(first.is_ok());
    assert!(table.borrow()[0].2);
    assert_eq!(table.borrow().len(), 2);
    let second = drive(
        svc.refresh("old-token"),
        |f, ev| svc.refresh_step(f, ev),
        with_table(&u, &table),
        &mut Vec::new(),
    );
    assert!(matches!(second, Err(AppError::InvalidRefreshToken)));
}

#[test]
fn a_second_logout_changes_nothing() {
    let svc = service();
    let u = user(7, "active");
    let table = std::cell::RefCell::new(vec![(9u128, hash_token("tok"), false)]);
    let mut log = Vec::new();
    let first = drive(svc.logout("tok"), |f, ev| svc.logout_step(f, ev), with_table(&u, &table), &mut log);
    assert_eq!(first.unwrap().message, "Logged out successfully");
    assert_eq!(log.len(), 3);
    let before = table.borrow().clone();
    let mut log = Vec::new();
    let second = drive(svc.logout("tok"), |f, ev| svc.logout_step(f, ev), with_table(&u, &table), &mut log);
    assert_eq!(second.unwrap().message, "Logged out successfully");
    assert_eq!(log.len(), 1);
    assert_eq!(*table.borrow(), before);
}
