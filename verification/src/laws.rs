//! Properties of the library that span several steps or functions.
use vstd::prelude::*;
use crate::auth::login::{is_locked, login_step_spec, LoginFlow, LoginStage};
use crate::auth::logout::{logged_out, logout_step_spec, LogoutFlow, LogoutStage};
use crate::auth::refresh::{refresh_step_spec, RefreshFlow, RefreshStage};
use crate::auth::service::{begin_issue_spec, issue_step_spec, AuthService, Issue, IssueStep};
use crate::config::{config_matches, AppConfig, EnvVars, JwtSettings};
use crate::crypto::token_hash;
use crate::errors::{status_of, AppError, ErrorSpec};
use crate::flow::{Command, Event, Step};
use crate::jwt::{access_claims_spec, refresh_claims_spec, session_key_text, Claims};
use crate::numbers::{parse_unsigned_spec, scan_digits, IntParseError};
use crate::user::service::page_offset;
use crate::user::controller::page_of;
use crate::schemas::PaginationQuery;
use crate::middleware::{auth_step_spec, rate_decision_spec, AuthGate};
use crate::model::{Session, User};
use crate::schemas::{AuthResponse, MessageResponse, TokenRefreshResponse};
use crate::user::service::{password_step_spec, PasswordFlow};
use crate::validation::{
    has_digit,
    has_lowercase,
    has_special,
    has_uppercase,
    password_rule,
    username_rule,
    email_rule,
    email_shape_at,
};

verus! {

/// Every error is answered with a client or server error status.
pub proof fn errors_answer_with_error_statuses(e: AppError)
    ensures
        400 <= status_of(e) < 600,
{
}

/// A password is accepted exactly when it is 8 to 128 characters long and
/// holds an uppercase letter, a lowercase letter, a digit and a special
/// character.
pub proof fn password_rule_is_the_strength_policy(p: Seq<char>)
    ensures
        password_rule(p) is Ok <==> (8 <= p.len() <= 128 && has_uppercase(p) && has_lowercase(p)
            && has_digit(p) && has_special(p)),
{
}

/// A login does not tell an unknown email from a wrong password: both are
/// answered with the same error.
pub proof fn login_hides_unknown_accounts(
    svc: AuthService,
    f1: LoginFlow,
    r1: Step<LoginFlow, AuthResponse>,
    f2: LoginFlow,
    r2: Step<LoginFlow, AuthResponse>,
)
    requires
        f1.stage is FindUser,
        login_step_spec(svc, f1, Event::User(Ok(None)), r1),
        f2.stage is Verify,
        login_step_spec(svc, f2, Event::PasswordCheck(Ok(false)), r2),
    ensures
        r1 matches Step::Finish(Err(e1)) && r2 matches Step::Finish(Err(e2)) && e1@ == e2@ && e1@
            == ErrorSpec::InvalidCredentials,
{
}

/// A login reports a locked account only to a caller who gave its password
/// (apart from errors of the store, which are passed on as they come).
pub proof fn locked_accounts_answer_only_the_right_password(
    svc: AuthService,
    f: LoginFlow,
    ev: Event,
    r: Step<LoginFlow, AuthResponse>,
)
    requires
        login_step_spec(svc, f, ev, r),
        !ev.carries_error(),
        r matches Step::Finish(Err(e)) && e@ == ErrorSpec::AccountLocked,
    ensures
        f.stage matches LoginStage::Verify { user } && is_locked(user) && ev matches Event::PasswordCheck(
            Ok(true),
        ),
{
}

/// A login records the login and then issues a session only after the
/// password was checked and the account found unlocked.
pub proof fn login_issues_only_after_the_password_check(
    svc: AuthService,
    f: LoginFlow,
    ev: Event,
    r: Step<LoginFlow, AuthResponse>,
)
    requires
        login_step_spec(svc, f, ev, r),
        !(f.stage is Issuing),
    ensures
        r matches Step::Continue(f2, _) && f2.stage is Touch ==> (f.stage matches LoginStage::Verify {
            user,
        } && !is_locked(user) && ev matches Event::PasswordCheck(Ok(true))),
        r matches Step::Continue(f2, _) && f2.stage is Issuing ==> (f.stage is Touch
            && ev matches Event::Written(Ok(()))),
{
}

/// A refresh starts the new session only after the old one was revoked and
/// removed from the cache, under the key it was cached with.
pub proof fn refresh_retires_the_old_session_first(
    svc: AuthService,
    f: RefreshFlow,
    ev: Event,
    r: Step<RefreshFlow, TokenRefreshResponse>,
)
    requires
        refresh_step_spec(svc, f, ev, r),
        !(f.stage is Issuing),
    ensures
        r matches Step::Continue(f2, _) && f2.stage is Issuing ==> f.stage is Evict,
        r matches Step::Continue(f2, c) ==> (f2.stage is Evict ==> (f.stage matches RefreshStage::Revoke {
            session,
            ..
        } && ev matches Event::Written(Ok(())) && c matches Command::EvictSession { key } && key@
            == session_key_text(crate::ids::uuid_text(session.id)))),
        r matches Step::Continue(f2, c) ==> (f2.stage is Revoke ==> (f.stage matches RefreshStage::FindUser {
            session,
            ..
        } && c == Command::RevokeSession(session.id))),
{
}

/// A password change stores a new hash only after the current password was
/// checked.
pub proof fn password_changes_only_after_the_check(
    f: PasswordFlow,
    ev: Event,
    r: Step<PasswordFlow, ()>,
)
    requires
        password_step_spec(f, ev, r),
    ensures
        r matches Step::Continue(_, Command::UpdatePassword { .. }) ==> f.stage is Hash,
        r matches Step::Continue(f2, _) && f2.stage is Hash ==> (f.stage is Verify
            && ev matches Event::PasswordCheck(Ok(true))),
{
}

/// The refresh token handed out with a new session is the one whose hash the
/// session was stored under, so presenting it again finds that session.
pub proof fn issued_refresh_token_finds_its_session(
    jwt: JwtSettings,
    st1: Issue,
    ev1: Event,
    st2: Issue,
    c1: Command,
    ev2: Event,
    st3: Issue,
    c2: Command,
    ev3: Event,
    r3: IssueStep,
)
    requires
        issue_step_spec(jwt, st1, ev1, IssueStep::Continue(st2, c1)),
        c1 is CreateSession,
        issue_step_spec(jwt, st2, ev2, IssueStep::Continue(st3, c2)),
        issue_step_spec(jwt, st3, ev3, r3),
        r3 is Issued,
    ensures
        r3 matches IssueStep::Issued(is) && c1 matches Command::CreateSession {
            refresh_token_hash,
            ..
        } && token_hash(is.refresh_token@) == refresh_token_hash@,
{
}

/// The cache key that the token check looks for, for an access token handed
/// out with a new session, is the key under which that session was marked
/// live (when the store kept the session's identifier).
pub proof fn issued_access_token_checks_its_cached_session(
    svc: AuthService,
    user: User,
    ip_address: Option<String>,
    user_agent: Option<String>,
    i0: Issue,
    c0: Command,
    ev1: Event,
    i1: Issue,
    claims: Claims,
    ev2: Event,
    i2: Issue,
    c2: Command,
    ev3: Event,
    i3: Issue,
    c3: Command,
    ev4: Event,
    i4: Issue,
    c4: Command,
    session: Session,
    i5: Issue,
    c5: Command,
    r: Step<AuthGate, Claims>,
)
    requires
        begin_issue_spec(svc.jwt, user, ip_address, user_agent, i0, c0),
        issue_step_spec(svc.jwt, i0, ev1, IssueStep::Continue(i1, Command::EncodeAccessToken(claims))),
        issue_step_spec(svc.jwt, i1, ev2, IssueStep::Continue(i2, c2)),
        issue_step_spec(svc.jwt, i2, ev3, IssueStep::Continue(i3, c3)),
        issue_step_spec(svc.jwt, i3, ev4, IssueStep::Continue(i4, c4)),
        issue_step_spec(
            svc.jwt,
            i4,
            Event::CreatedSession(Ok(session)),
            IssueStep::Continue(i5, c5),
        ),
        session.id == i0.session_id,
        auth_step_spec(AuthGate::Decoding, Event::Decoded(Ok(claims)), r),
    ensures
        c5 matches Command::CacheSession { key: cached, .. } && r matches Step::Continue(
            _,
            Command::SessionExists { key: checked },
        ) && cached@ == checked@,
{
}

/// Logging out removes from the cache the key under which the session was
/// marked live when it was issued.
pub proof fn logout_evicts_the_cached_session(
    jwt: JwtSettings,
    i2: Issue,
    session: Session,
    i3: Issue,
    c3: Command,
    f: LogoutFlow,
    r: Step<LogoutFlow, MessageResponse>,
)
    requires
        i2.stage is Store,
        issue_step_spec(jwt, i2, Event::CreatedSession(Ok(session)), IssueStep::Continue(i3, c3)),
        f.stage == (LogoutStage::Revoke { session }),
        logout_step_spec(f, Event::Written(Ok(())), r),
    ensures
        c3 matches Command::CacheSession { key: cached, .. } && r matches Step::Continue(
            _,
            Command::EvictSession { key: evicted },
        ) && cached@ == evicted@,
{
}

/// How many of the requests counted 1 to `n` in one window of a client's
/// counter go through.
pub open spec fn admitted_in_window(n: nat) -> nat
    decreases n,
{
    if n == 0 {
        0
    } else {
        admitted_in_window((n - 1) as nat) + if rate_decision_spec(Ok(n as u64)).allow {
            1nat
        } else {
            0nat
        }
    }
}

/// In one window a client gets at most 100 requests through: of the
/// requests counted 1 to `n`, exactly the first 100 (or all, when fewer) go
/// through, and only the first one starts the window.
pub proof fn a_window_admits_at_most_the_limit(n: nat)
    requires
        n <= u64::MAX,
    ensures
        admitted_in_window(n) == if n <= 100 { n } else { 100 },
        n >= 1 ==> (rate_decision_spec(Ok(n as u64)).start_window <==> n == 1),
    decreases n,
{
    if n > 0 {
        a_window_admits_at_most_the_limit((n - 1) as nat);
    }
}

// ---------------------------------------------------------------------------
// The session table
// ---------------------------------------------------------------------------

/// Whether `found` is an answer the store may give, from the session table
/// `table` (for each session identifier: the hash of its refresh token and
/// whether it is revoked), to a lookup of the live session stored under
/// `hash`: a session it finds is stored under that hash and not revoked (an
/// expired one is not found at all).
pub open spec fn lookup_consistent(
    table: Map<u128, (Seq<char>, bool)>,
    hash: Seq<char>,
    found: Option<Session>,
) -> bool {
    match found {
        Some(s) => table.contains_key(s.id) && table[s.id].0 == hash && !table[s.id].1,
        None => true,
    }
}

/// The table after session `id` was revoked.
pub open spec fn revoke_row(table: Map<u128, (Seq<char>, bool)>, id: u128) -> Map<u128, (Seq<char>, bool)> {
    if table.contains_key(id) {
        table.insert(id, (table[id].0, true))
    } else {
        table
    }
}

/// Whether session `id` is the only live session stored under `hash`.
pub open spec fn only_live_under(table: Map<u128, (Seq<char>, bool)>, id: u128, hash: Seq<char>) -> bool {
    forall|k: u128| #[trigger] table.contains_key(k) && k != id && table[k].0 == hash ==> table[k].1
}

/// A refresh token is exchanged at most once. A refresh that found the live
/// session of token `tok` and the session's account revokes that session;
/// afterwards, while the store answers from its table (where no other live
/// session was stored under the token's hash, and the sessions added since
/// are stored under other hashes), a refresh with the same token finds no
/// session and is refused.
pub proof fn refresh_token_is_exchanged_at_most_once(
    svc: AuthService,
    tok: Seq<char>,
    table: Map<u128, (Seq<char>, bool)>,
    f1: RefreshFlow,
    s: Session,
    f2: RefreshFlow,
    c2: Command,
    u: User,
    f3: RefreshFlow,
    rid: u128,
    added: Map<u128, (Seq<char>, bool)>,
    g: RefreshFlow,
    found: Option<Session>,
    r: Step<RefreshFlow, TokenRefreshResponse>,
)
    requires
        f1.refresh_token@ == tok,
        f1.stage is FindSession,
        lookup_consistent(table, token_hash(tok), Some(s)),
        only_live_under(table, s.id, token_hash(tok)),
        refresh_step_spec(
            svc,
            f1,
            Event::FoundSession(Ok(Some(s))),
            Step::Continue(f2, c2),
        ),
        refresh_step_spec(
            svc,
            f2,
            Event::User(Ok(Some(u))),
            Step::Continue(f3, Command::RevokeSession(rid)),
        ),
        forall|k: u128| #[trigger] added.contains_key(k) ==> added[k].0 != token_hash(tok),
        g.refresh_token@ == tok,
        g.stage is FindSession,
        lookup_consistent(revoke_row(table, rid).union_prefer_right(added), token_hash(tok), found),
        refresh_step_spec(svc, g, Event::FoundSession(Ok(found)), r),
    ensures
        rid == s.id,
        r matches Step::Finish(Err(e)) && e@ == ErrorSpec::InvalidRefreshToken,
{
    if let Some(x) = found {
        if added.contains_key(x.id) {
            assert(added[x.id].0 != token_hash(tok));
        } else if x.id != s.id {
            assert(table.contains_key(x.id));
        }
    }
}

/// Logging out twice with the same token changes nothing the second time.
/// A logout that found the live session of token `tok` revokes it;
/// afterwards, while the store answers from its table (where no other live
/// session was stored under the token's hash), a logout with the same token
/// finds no session and answers success without asking for anything more.
pub proof fn repeated_logout_changes_nothing(
    tok: Seq<char>,
    table: Map<u128, (Seq<char>, bool)>,
    f1: LogoutFlow,
    s: Session,
    f2: LogoutFlow,
    rid: u128,
    g: LogoutFlow,
    found: Option<Session>,
    r: Step<LogoutFlow, MessageResponse>,
)
    requires
        f1.stage is Find,
        lookup_consistent(table, token_hash(tok), Some(s)),
        only_live_under(table, s.id, token_hash(tok)),
        logout_step_spec(f1, Event::FoundSession(Ok(Some(s))), Step::Continue(f2, Command::RevokeSession(rid))),
        g.stage is Find,
        lookup_consistent(revoke_row(table, rid), token_hash(tok), found),
        logout_step_spec(g, Event::FoundSession(Ok(found)), r),
    ensures
        rid == s.id,
        r matches Step::Finish(Ok(m)) && logged_out(m),
{
    if let Some(x) = found {
        if x.id != s.id {
            assert(table.contains_key(x.id));
        }
    }
}

/// A refresh token names the configured issuer and audience, the same ones
/// as the access token issued with it (and the ones the token check
/// requires), and the same user and session; it carries no email or role and
/// expires a refresh lifetime after it was issued.
pub proof fn refresh_tokens_name_the_configured_issuer_and_audience(
    jwt: JwtSettings,
    user_id: u128,
    session_id: u128,
    access: Claims,
    email: Seq<char>,
    role: Seq<char>,
    t_access: i64,
    refresh: Claims,
    t_refresh: i64,
)
    requires
        access_claims_spec(access, user_id, email, session_id, role, t_access, jwt),
        refresh_claims_spec(refresh, user_id, session_id, t_refresh, jwt),
    ensures
        refresh.iss@ == jwt.issuer@,
        refresh.aud@ == jwt.audience@,
        access.iss@ == jwt.issuer@,
        access.aud@ == jwt.audience@,
        refresh.iss@ == access.iss@ && refresh.aud@ == access.aud@,
        refresh.sub@ == access.sub@ && refresh.session_id@ == access.session_id@,
        refresh.email@.len() == 0 && refresh.role@.len() == 0,
        refresh.iat == t_refresh as usize,
        refresh.exp == (t_refresh + jwt.refresh_expiration) as usize,
{
}

/// Pages of the account list follow one another: page 1 starts at the first
/// account, and each page starts right after the `per_page` accounts of the
/// one before, so pages neither overlap nor leave a gap.
pub proof fn pages_follow_one_another(page: i64, per_page: i64)
    requires
        page >= 1,
        per_page >= 1,
    ensures
        page_offset(1, per_page) == 0,
        page < i64::MAX ==> page_offset((page + 1) as i64, per_page) == page_offset(page, per_page)
            + per_page,
        page_offset(page, per_page) >= 0,
{
    assert((page - 1) * per_page >= 0) by (nonlinear_arith)
        requires
            page >= 1,
            per_page >= 1,
    ;
    assert(page * per_page == (page - 1) * per_page + per_page) by (nonlinear_arith);
}

/// The page asked for is at least 1 and holds 1 to 100 accounts: page 1
/// and 20 accounts when not given, and the given values when within bounds.
pub proof fn pages_asked_for_stay_in_bounds(q: PaginationQuery)
    ensures
        page_of(q).0 >= 1,
        1 <= page_of(q).1 <= 100,
        q.page is None ==> page_of(q).0 == 1,
        q.page matches Some(p) ==> (p >= 1 ==> page_of(q).0 == p),
        q.page matches Some(p) ==> (p < 1 ==> page_of(q).0 == 1),
        q.per_page is None ==> page_of(q).1 == 20,
        q.per_page matches Some(n) ==> (1 <= n <= 100 ==> page_of(q).1 == n),
        q.per_page matches Some(n) ==> (n < 1 ==> page_of(q).1 == 1),
        q.per_page matches Some(n) ==> (n > 100 ==> page_of(q).1 == 100),
{
}

/// A username is accepted exactly when it has 3 to 32 characters and each is
/// an ASCII letter (either case), an ASCII digit or an underscore.
pub proof fn usernames_are_ascii_words(s: Seq<char>)
    ensures
        username_rule(s) is Ok <==> (3 <= s.len() <= 32 && forall|i: int|
            0 <= i < s.len() ==> {
                let c = #[trigger] s[i];
                ('a' <= c <= 'z') || ('A' <= c <= 'Z') || ('0' <= c <= '9') || c == '_'
            }),
{
}

/// Whether `s` is an address split at `at` and `dot`: ASCII letters, digits
/// and `._%+-` before the `@`, then ASCII letters, digits, dots and hyphens
/// up to the last `.`, then at least two ASCII letters.
pub open spec fn address_split(s: Seq<char>, at: int, dot: int) -> bool {
    &&& 0 < at < dot - 1
    &&& dot < s.len() - 2
    &&& s[at] == '@'
    &&& s[dot] == '.'
    &&& forall|i: int|
        0 <= i < at ==> {
            let c = #[trigger] s[i];
            ('a' <= c <= 'z') || ('A' <= c <= 'Z') || ('0' <= c <= '9') || c == '.' || c == '_'
                || c == '%' || c == '+' || c == '-'
        }
    &&& forall|i: int|
        at < i < dot ==> {
            let c = #[trigger] s[i];
            ('a' <= c <= 'z') || ('A' <= c <= 'Z') || ('0' <= c <= '9') || c == '.' || c == '-'
        }
    &&& forall|i: int|
        dot < i < s.len() ==> {
            let c = #[trigger] s[i];
            ('a' <= c <= 'z') || ('A' <= c <= 'Z')
        }
}

/// An email address is accepted exactly when it has at most 254 characters
/// and splits into a local part, `@`, a domain and a last part of at least
/// two letters.
pub proof fn emails_are_accepted_by_their_shape(s: Seq<char>)
    ensures
        email_rule(s) is Ok <==> (s.len() <= 254 && exists|at: int, dot: int|
            #[trigger] address_split(s, at, dot)),
{
    if email_rule(s) is Ok {
        let (at, dot) = choose|at: int, dot: int| #[trigger] email_shape_at(s, at, dot);
        assert(address_split(s, at, dot));
    }
    if s.len() <= 254 && exists|at: int, dot: int| #[trigger] address_split(s, at, dot) {
        let (at, dot) = choose|at: int, dot: int| #[trigger] address_split(s, at, dot);
        assert(email_shape_at(s, at, dot));
    }
}

/// Each variable that is set is the value of its setting, and each unset one
/// leaves its setting at its default: the configuration built from `env`
/// (when its numbers parse) reads every variable.
pub proof fn every_set_variable_is_read(c: AppConfig, env: EnvVars)
    requires
        config_matches(c, env),
    ensures
        env.http_host matches Some(h) ==> c.app.host@ == h@,
        env.http_host is None ==> c.app.host@ == "0.0.0.0"@,
        env.http_port matches Some(p) ==> parse_unsigned_spec(p@, u16::MAX as nat) == Ok::<
            nat,
            IntParseError,
        >(c.app.port as nat),
        env.http_port is None ==> c.app.port == 8000,
        env.rust_env matches Some(v) ==> c.app.environment@ == v@,
        env.rust_env is None ==> c.app.environment@ == "development"@,
        env.database_url matches Some(u) && c.database.url@ == u@,
        env.pool_size is None ==> c.database.pool_size == 10,
        env.connect_timeout is None ==> c.database.connect_timeout == 10,
        env.idle_timeout is None ==> c.database.idle_timeout == 60,
        env.max_lifetime is None ==> c.database.max_lifetime == 1800,
        env.sslmode matches Some(m) ==> c.database.sslmode@ == m@,
        env.sslmode is None ==> c.database.sslmode@ == "disable"@,
        env.redis_url matches Some(u) ==> c.redis.url@ == u@,
        env.redis_url is None ==> c.redis.url@ == "redis://localhost:6379"@,
        env.jwt_secret matches Some(k) && c.jwt.secret@ == k@,
        env.rust_log matches Some(l) ==> c.observability.rust_log@ == l@,
        env.rust_log is None ==> c.observability.rust_log@ == "info"@,
        env.monitoring_prometheus_port is None ==> c.observability.prometheus_port == 9490,
        env.pool_size matches Some(t) ==> parse_unsigned_spec(t@, u32::MAX as nat) == Ok::<
            nat,
            IntParseError,
        >(c.database.pool_size as nat),
        env.connect_timeout matches Some(t) ==> parse_unsigned_spec(t@, u64::MAX as nat) == Ok::<
            nat,
            IntParseError,
        >(c.database.connect_timeout as nat),
        env.idle_timeout matches Some(t) ==> parse_unsigned_spec(t@, u64::MAX as nat) == Ok::<
            nat,
            IntParseError,
        >(c.database.idle_timeout as nat),
        env.max_lifetime matches Some(t) ==> parse_unsigned_spec(t@, u64::MAX as nat) == Ok::<
            nat,
            IntParseError,
        >(c.database.max_lifetime as nat),
        env.monitoring_prometheus_port matches Some(t) ==> parse_unsigned_spec(t@, u16::MAX as nat) == Ok::<
            nat,
            IntParseError,
        >(c.observability.prometheus_port as nat),
{
    assert("8000"@ == seq!['8', '0', '0', '0']) by {
        reveal_strlit("8000");
    }
    assert("10"@ == seq!['1', '0']) by {
        reveal_strlit("10");
    }
    assert("60"@ == seq!['6', '0']) by {
        reveal_strlit("60");
    }
    assert("1800"@ == seq!['1', '8', '0', '0']) by {
        reveal_strlit("1800");
    }
    assert("9490"@ == seq!['9', '4', '9', '0']) by {
        reveal_strlit("9490");
    }
    assert(scan_digits(seq!['8', '0', '0', '0'], 4, 8000, 65535) == Ok::<nat, IntParseError>(8000));
    assert(scan_digits(seq!['8', '0', '0', '0'], 3, 800, 65535) == Ok::<nat, IntParseError>(8000));
    assert(scan_digits(seq!['8', '0', '0', '0'], 2, 80, 65535) == Ok::<nat, IntParseError>(8000));
    assert(scan_digits(seq!['8', '0', '0', '0'], 1, 8, 65535) == Ok::<nat, IntParseError>(8000));
    assert(scan_digits(seq!['8', '0', '0', '0'], 0, 0, 65535) == Ok::<nat, IntParseError>(8000));
    assert(scan_digits(seq!['1', '0'], 2, 10, 4294967295) == Ok::<nat, IntParseError>(10));
    assert(scan_digits(seq!['1', '0'], 1, 1, 4294967295) == Ok::<nat, IntParseError>(10));
    assert(scan_digits(seq!['1', '0'], 0, 0, 4294967295) == Ok::<nat, IntParseError>(10));
    assert(scan_digits(seq!['1', '0'], 2, 10, 18446744073709551615) == Ok::<nat, IntParseError>(10));
    assert(scan_digits(seq!['1', '0'], 1, 1, 18446744073709551615) == Ok::<nat, IntParseError>(10));
    assert(scan_digits(seq!['1', '0'], 0, 0, 18446744073709551615) == Ok::<nat, IntParseError>(10));
    assert(scan_digits(seq!['6', '0'], 2, 60, 18446744073709551615) == Ok::<nat, IntParseError>(60));
    assert(scan_digits(seq!['6', '0'], 1, 6, 18446744073709551615) == Ok::<nat, IntParseError>(60));
    assert(scan_digits(seq!['6', '0'], 0, 0, 18446744073709551615) == Ok::<nat, IntParseError>(60));
    assert(scan_digits(seq!['1', '8', '0', '0'], 4, 1800, 18446744073709551615) == Ok::<nat, IntParseError>(1800));
    assert(scan_digits(seq!['1', '8', '0', '0'], 3, 180, 18446744073709551615) == Ok::<nat, IntParseError>(1800));
    assert(scan_digits(seq!['1', '8', '0', '0'], 2, 18, 18446744073709551615) == Ok::<nat, IntParseError>(1800));
    assert(scan_digits(seq!['1', '8', '0', '0'], 1, 1, 18446744073709551615) == Ok::<nat, IntParseError>(1800));
    assert(scan_digits(seq!['1', '8', '0', '0'], 0, 0, 18446744073709551615) == Ok::<nat, IntParseError>(1800));
    assert(scan_digits(seq!['9', '4', '9', '0'], 4, 9490, 65535) == Ok::<nat, IntParseError>(9490));
    assert(scan_digits(seq!['9', '4', '9', '0'], 3, 949, 65535) == Ok::<nat, IntParseError>(9490));
    assert(scan_digits(seq!['9', '4', '9', '0'], 2, 94, 65535) == Ok::<nat, IntParseError>(9490));
    assert(scan_digits(seq!['9', '4', '9', '0'], 1, 9, 65535) == Ok::<nat, IntParseError>(9490));
    assert(scan_digits(seq!['9', '4', '9', '0'], 0, 0, 65535) == Ok::<nat, IntParseError>(9490));
}
} // verus!
