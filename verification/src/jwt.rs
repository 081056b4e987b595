use vstd::prelude::*;
use crate::config::JwtSettings;
use crate::errors::{AppError, ErrorSpec};
use crate::ids::{uuid_text, uuid_to_text};

verus! {

/// The claims a token carries.
#[derive(Debug, Clone)]
pub struct Claims {
    /// Identifier of the user (hyphenated text).
    pub sub: String,
    pub email: String,
    /// Identifier of the session (hyphenated text).
    pub session_id: String,
    pub role: String,
    pub exp: usize,
    pub iat: usize,
    pub iss: String,
    pub aud: String,
}

/// Last second of the dates the clock library represents (end of year 262143).
pub open spec fn max_timestamp() -> int {
    8210298412799
}

/// First second of the dates the clock library represents (start of year -262144).
pub open spec fn min_timestamp() -> int {
    -8334632851200
}

/// Whether a token issued at `now` (seconds since the epoch) with a lifetime
/// of `lifetime` seconds has an expiry the clock library can represent: the
/// lifetime is a representable duration and the sum a representable date.
pub open spec fn expiry_representable(now: i64, lifetime: i64) -> bool {
    &&& -(i64::MAX / 1000) <= lifetime <= i64::MAX / 1000
    &&& min_timestamp() <= now + lifetime <= max_timestamp()
}

/// Whether `c` are the claims of an access token for the given user and
/// session, issued at `now`.
pub open spec fn access_claims_spec(
    c: Claims,
    user_id: u128,
    email: Seq<char>,
    session_id: u128,
    role: Seq<char>,
    now: i64,
    jwt: JwtSettings,
) -> bool {
    &&& c.sub@ == uuid_text(user_id)
    &&& c.email@ == email
    &&& c.session_id@ == uuid_text(session_id)
    &&& c.role@ == role
    &&& c.iat == now as usize
    &&& c.exp == (now + jwt.access_expiration) as usize
    &&& c.iss@ == jwt.issuer@
    &&& c.aud@ == jwt.audience@
}

/// Whether `c` are the claims of a refresh token for the given user and
/// session, issued at `now`: no email and no role.
pub open spec fn refresh_claims_spec(
    c: Claims,
    user_id: u128,
    session_id: u128,
    now: i64,
    jwt: JwtSettings,
) -> bool {
    &&& c.sub@ == uuid_text(user_id)
    &&& c.email@ == Seq::<char>::empty()
    &&& c.session_id@ == uuid_text(session_id)
    &&& c.role@ == Seq::<char>::empty()
    &&& c.iat == now as usize
    &&& c.exp == (now + jwt.refresh_expiration) as usize
    &&& c.iss@ == jwt.issuer@
    &&& c.aud@ == jwt.audience@
}

/// Whether a token issued at `now` with a lifetime of `lifetime` seconds has
/// an expiry the clock library can represent.
pub fn expiry_fits(now: i64, lifetime: i64) -> (r: bool)
    ensures
        r == expiry_representable(now, lifetime),
{
    let bound: i64 = i64::MAX / 1000;
    if lifetime < -bound || lifetime > bound {
        return false;
    }
    let end: i128 = now as i128 + lifetime as i128;
    -8334632851200i128 <= end && end <= 8210298412799i128
}

#[verifier::truncate]
fn timestamp_as_usize(t: i64) -> (r: usize)
    ensures
        r == t as usize,
{
    t as usize
}

/// Claims of an access token (short-lived, typically 15 min).
pub fn access_claims(
    user_id: u128,
    email: &str,
    session_id: u128,
    role: &str,
    now: i64,
    jwt: &JwtSettings,
) -> (c: Claims)
    requires
        expiry_representable(now, jwt.access_expiration),
    ensures
        access_claims_spec(c, user_id, email@, session_id, role@, now, *jwt),
{
    Claims {
        sub: uuid_to_text(user_id),
        email: String::from_str(email),
        session_id: uuid_to_text(session_id),
        role: String::from_str(role),
        iat: timestamp_as_usize(now),
        exp: timestamp_as_usize(now + jwt.access_expiration),
        iss: jwt.issuer.clone(),
        aud: jwt.audience.clone(),
    }
}

/// Claims of a refresh token (long-lived, typically 7 days).
pub fn refresh_claims(user_id: u128, session_id: u128, now: i64, jwt: &JwtSettings) -> (c: Claims)
    requires
        expiry_representable(now, jwt.refresh_expiration),
    ensures
        refresh_claims_spec(c, user_id, session_id, now, *jwt),
{
    Claims {
        sub: uuid_to_text(user_id),
        email: String::new(),
        session_id: uuid_to_text(session_id),
        role: String::new(),
        iat: timestamp_as_usize(now),
        exp: timestamp_as_usize(now + jwt.refresh_expiration),
        iss: jwt.issuer.clone(),
        aud: jwt.audience.clone(),
    }
}

/// Why a token was not accepted by the decoder.
#[derive(Debug, Clone, Copy, PartialEq, Eq, Structural)]
pub enum TokenFailure {
    /// The signature is valid but the token's `exp` has passed.
    Expired,
    /// Any other reason (bad signature, issuer, audience, format).
    Invalid,
}

/// The error reported for an access token the decoder refused.
pub fn access_token_error(f: TokenFailure) -> (r: AppError)
    ensures
        r@ == (match f {
            TokenFailure::Expired => ErrorSpec::TokenExpired,
            TokenFailure::Invalid => ErrorSpec::InvalidToken,
        }),
{
    match f {
        TokenFailure::Expired => AppError::TokenExpired,
        TokenFailure::Invalid => AppError::InvalidToken,
    }
}

/// The error reported for a refresh token the decoder refused, whatever the reason.
pub fn refresh_token_error(f: TokenFailure) -> (r: AppError)
    ensures
        r@ == ErrorSpec::InvalidRefreshToken,
{
    AppError::InvalidRefreshToken
}

/// The cache key that marks a session as live, given the session's identifier text.
pub open spec fn session_key_text(id: Seq<char>) -> Seq<char> {
    "session:"@ + id
}

/// The cache key that marks a session as live.
pub fn session_key(session_id_text: &str) -> (r: String)
    ensures
        r@ == session_key_text(session_id_text@),
{
    String::from_str("session:").concat(session_id_text)
}

} // verus!
