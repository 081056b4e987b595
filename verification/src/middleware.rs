//! Decisions of the request middleware: token check, rate limiting and
//! correlation identifiers.
use vstd::prelude::*;
use crate::errors::{AppError, ErrorResponse, ErrorSpec};
use crate::flow::{CacheFailure, Command, Event, EventKind, Step};
use crate::ids::{is_random_v4, new_random_id, uuid_text, uuid_to_text};
use crate::jwt::{access_token_error, session_key, session_key_text, Claims, TokenFailure};
use crate::schemas::CorrelationId;

verus! {

// ---------------------------------------------------------------------------
// Token check
// ---------------------------------------------------------------------------

/// The scheme that precedes a token in the `Authorization` header.
pub open spec fn bearer_prefix() -> Seq<char> {
    seq!['B', 'e', 'a', 'r', 'e', 'r', ' ']
}

/// The token an `Authorization` header carries after the bearer scheme.
pub open spec fn bearer_token_of(header: Seq<char>) -> Option<Seq<char>> {
    if header.len() >= 7 && header.subrange(0, 7) == bearer_prefix() {
        Some(header.subrange(7, header.len() as int))
    } else {
        None
    }
}

/// The token after `Bearer ` in an `Authorization` header.
pub fn strip_bearer(header: &str) -> (r: Option<&str>)
    ensures
        match bearer_token_of(header@) {
            Some(t) => r matches Some(s) && s@ == t,
            None => r is None,
        },
{
    let n = header.unicode_len();
    if n < 7 {
        return None;
    }
    let prefix = ['B', 'e', 'a', 'r', 'e', 'r', ' '];
    let mut i: usize = 0;
    while i < 7
        invariant
            n == header@.len(),
            n >= 7,
            i <= 7,
            prefix@ == bearer_prefix(),
            forall|j: int| 0 <= j < i ==> header@[j] == bearer_prefix()[j],
        decreases 7 - i,
    {
        if header.get_char(i) != prefix[i] {
            assert(header@.subrange(0, 7)[i as int] != bearer_prefix()[i as int]);
            return None;
        }
        i = i + 1;
    }
    assert(header@.subrange(0, 7) == bearer_prefix());
    Some(header.substring_char(7, n))
}

/// Where the token check of a request stands.
#[derive(Debug, Clone)]
pub enum AuthGate {
    /// Waiting for the access token to be decoded and checked.
    Decoding,
    /// Waiting to learn whether the token's session is live.
    Checking { claims: Claims },
}

impl AuthGate {
    pub open spec fn awaiting(&self) -> EventKind {
        match self {
            AuthGate::Decoding => EventKind::Decoded,
            AuthGate::Checking { .. } => EventKind::Exists,
        }
    }
}

/// How the token check of a request starts, from its `Authorization` header
/// (`None` when absent or not visible ASCII).
pub open spec fn auth_start_spec(header: Option<&str>, r: Step<AuthGate, Claims>) -> bool {
    match header {
        None => r matches Step::Finish(Err(e)) && e@ == ErrorSpec::Unauthorized,
        Some(h) => match bearer_token_of(h@) {
            None => r matches Step::Finish(Err(e)) && e@ == ErrorSpec::InvalidToken,
            Some(t) => r matches Step::Continue(g, Command::DecodeAccessToken(tok)) && g
                == AuthGate::Decoding && tok@ == t,
        },
    }
}

/// What one step of the token check does with the answer `ev`.
pub open spec fn auth_step_spec(g: AuthGate, ev: Event, r: Step<AuthGate, Claims>) -> bool {
    match g {
        AuthGate::Decoding => match ev {
            Event::Decoded(Err(TokenFailure::Expired)) => r matches Step::Finish(Err(e)) && e@
                == ErrorSpec::TokenExpired,
            Event::Decoded(Err(TokenFailure::Invalid)) => r matches Step::Finish(Err(e)) && e@
                == ErrorSpec::InvalidToken,
            Event::Decoded(Ok(claims)) => r matches Step::Continue(g2, Command::SessionExists { key })
                && g2 == (AuthGate::Checking { claims }) && key@ == session_key_text(
                claims.session_id@,
            ),
            _ => false,
        },
        AuthGate::Checking { claims } => match ev {
            Event::Exists(Err(CacheFailure::NoConnection)) => r matches Step::Finish(Err(e)) && e@
                == ErrorSpec::InternalError("Redis unavailable"@),
            Event::Exists(Err(CacheFailure::CommandFailed)) => r matches Step::Finish(Err(e)) && e@
                == ErrorSpec::InternalError("Cache error"@),
            Event::Exists(Ok(false)) => r matches Step::Finish(Err(e)) && e@
                == ErrorSpec::InvalidToken,
            Event::Exists(Ok(true)) => r == Step::<AuthGate, Claims>::Finish(Ok(claims)),
            _ => false,
        },
    }
}

/// Validates the bearer token of a request: first takes it from the
/// `Authorization` header.
pub fn auth_middleware(header: Option<&str>) -> (r: Step<AuthGate, Claims>)
    ensures
        auth_start_spec(header, r),
{
    let h = match header {
        None => return Step::Finish(Err(AppError::Unauthorized)),
        Some(h) => h,
    };
    match strip_bearer(h) {
        None => Step::Finish(Err(AppError::InvalidToken)),
        Some(t) => Step::Continue(AuthGate::Decoding, Command::DecodeAccessToken(String::from_str(t))),
    }
}

/// Takes one step of the token check; it finishes with the token's claims
/// when the session is live.
pub fn auth_step(g: AuthGate, ev: Event) -> (r: Step<AuthGate, Claims>)
    requires
        ev.kind_spec() == g.awaiting(),
    ensures
        auth_step_spec(g, ev, r),
        r matches Step::Continue(g2, c) ==> g2.awaiting() == c.reply_kind_spec(),
{
    match g {
        AuthGate::Decoding => match ev {
            Event::Decoded(Err(f)) => Step::Finish(Err(access_token_error(f))),
            Event::Decoded(Ok(claims)) => {
                let key = session_key(claims.session_id.as_str());
                Step::Continue(AuthGate::Checking { claims }, Command::SessionExists { key })
            },
            _ => {
                assert(false);
                Step::Finish(Err(AppError::Unauthorized))
            },
        },
        AuthGate::Checking { claims } => match ev {
            Event::Exists(Err(CacheFailure::NoConnection)) => Step::Finish(
                Err(AppError::InternalError(String::from_str("Redis unavailable"))),
            ),
            Event::Exists(Err(CacheFailure::CommandFailed)) => Step::Finish(
                Err(AppError::InternalError(String::from_str("Cache error"))),
            ),
            Event::Exists(Ok(live)) => if live {
                Step::Finish(Ok(claims))
            } else {
                Step::Finish(Err(AppError::InvalidToken))
            },
            _ => {
                assert(false);
                Step::Finish(Err(AppError::Unauthorized))
            },
        },
    }
}

// ---------------------------------------------------------------------------
// Rate limiting
// ---------------------------------------------------------------------------

/// Length of a rate-limit window, in seconds.
pub const RATE_LIMIT_WINDOW_SECS: i64 = 60;

/// Requests a client may make in one window.
pub const RATE_LIMIT_MAX_REQUESTS: u64 = 100;

/// The counter key of a client, named by its `x-forwarded-for` header.
pub open spec fn rate_limit_key_text(forwarded_for: Option<Seq<char>>) -> Seq<char> {
    "ratelimit:"@ + match forwarded_for {
        Some(h) => h,
        None => "unknown"@,
    }
}

/// The counter key of a client, named by its `x-forwarded-for` header
/// (`None` when absent or not visible ASCII).
pub fn rate_limit_key(forwarded_for: Option<&str>) -> (r: String)
    ensures
        r@ == rate_limit_key_text(
            match forwarded_for {
                Some(h) => Some(h@),
                None => None,
            },
        ),
{
    let client = match forwarded_for {
        Some(h) => h,
        None => "unknown",
    };
    String::from_str("ratelimit:").concat(client)
}

/// What to do with a request, given the client's counter after counting it.
#[derive(Debug, Clone, Copy, PartialEq, Eq, Structural)]
pub struct RateDecision {
    /// Whether the request goes through.
    pub allow: bool,
    /// Whether the counter starts a new window (and must expire after it).
    pub start_window: bool,
}

/// The rate-limit decision: the first request of a window starts it, a
/// request goes through while at most 100 were counted in the window, and
/// any failure of the counter lets it through.
pub open spec fn rate_decision_spec(count: Result<u64, CacheFailure>) -> RateDecision {
    match count {
        Ok(n) => RateDecision { allow: n <= RATE_LIMIT_MAX_REQUESTS, start_window: n == 1 },
        Err(_) => RateDecision { allow: true, start_window: false },
    }
}

/// Decides on a request, given the client's counter after counting it.
pub fn rate_limit_check(count: Result<u64, CacheFailure>) -> (r: RateDecision)
    ensures
        r == rate_decision_spec(count),
{
    match count {
        Ok(1) => RateDecision { allow: true, start_window: true },
        Ok(n) => RateDecision { allow: n <= RATE_LIMIT_MAX_REQUESTS, start_window: false },
        Err(_) => RateDecision { allow: true, start_window: false },
    }
}

/// The answer to a request over the limit.
pub fn rate_limited_response() -> (r: ErrorResponse)
    ensures
        r.status == 429,
        r.code@ == "RATE_LIMIT_EXCEEDED"@,
        r.message@ == "Too many requests. Please slow down."@,
{
    ErrorResponse {
        status: 429,
        code: String::from_str("RATE_LIMIT_EXCEEDED"),
        message: String::from_str("Too many requests. Please slow down."),
    }
}

// ---------------------------------------------------------------------------
// Correlation identifiers
// ---------------------------------------------------------------------------

/// The correlation identifier of a request: the one its `x-correlation-id`
/// header carries, or the hyphenated text of a fresh random (version 4)
/// identifier.
pub fn correlation_id(header: Option<&str>) -> (r: CorrelationId)
    ensures
        match header {
            Some(h) => r.0@ == h@,
            None => exists|id: u128| #[trigger] uuid_text(id) == r.0@ && is_random_v4(id),
        },
{
    match header {
        Some(h) => CorrelationId(String::from_str(h)),
        None => {
            let id = new_random_id();
            let text = uuid_to_text(id);
            assert(uuid_text(id) == text@ && is_random_v4(id));
            CorrelationId(text)
        },
    }
}

} // verus!
