use vstd::prelude::*;

verus! {

/// A stored user account. Timestamps are RFC 3339 texts.
#[derive(Debug, Clone)]
pub struct User {
    pub id: u128,
    pub username: String,
    pub email: String,
    pub password_hash: String,
    pub role: String,
    pub status: String,
    pub email_verified: bool,
    pub last_login_at: Option<String>,
    pub created_at: String,
    pub updated_at: String,
}

/// A stored login session. Timestamps are RFC 3339 texts.
#[derive(Debug, Clone)]
pub struct Session {
    pub id: u128,
    pub user_id: u128,
    pub refresh_token_hash: String,
    pub device_fingerprint: Option<String>,
    pub ip_address: Option<String>,
    pub user_agent: Option<String>,
    pub is_revoked: bool,
    pub issued_at: String,
    pub expires_at: String,
    pub created_at: String,
}

} // verus!
