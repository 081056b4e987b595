use vstd::prelude::*;

verus! {

// --- Request schemas ---

#[derive(Debug, Clone)]
pub struct RegisterRequest {
    pub username: String,
    pub email: String,
    pub password: String,
}

#[derive(Debug, Clone)]
pub struct LoginRequest {
    pub email: String,
    pub password: String,
}

#[derive(Debug, Clone)]
pub struct RefreshTokenRequest {
    pub refresh_token: String,
}

#[derive(Debug, Clone)]
pub struct LogoutRequest {
    pub refresh_token: String,
}

#[derive(Debug, Clone)]
pub struct UpdateProfileRequest {
    pub username: Option<String>,
}

#[derive(Debug, Clone)]
pub struct ChangePasswordRequest {
    pub current_password: String,
    pub new_password: String,
}

/// Query parameters of the user listing.
#[derive(Debug, Clone, Copy)]
pub struct PaginationQuery {
    pub page: Option<i64>,
    pub per_page: Option<i64>,
}

// --- Response schemas ---

#[derive(Debug, Clone)]
pub struct AuthResponse {
    pub status: String,
    pub data: AuthData,
}

#[derive(Debug, Clone)]
pub struct AuthData {
    pub user: UserResponse,
    pub access_token: String,
    pub refresh_token: String,
    pub expires_in: i64,
}

#[derive(Debug, Clone)]
pub struct UserResponse {
    pub id: u128,
    pub username: String,
    pub email: String,
    pub role: String,
    pub email_verified: bool,
}

#[derive(Debug, Clone)]
pub struct TokenRefreshResponse {
    pub access_token: String,
    pub refresh_token: String,
    pub expires_in: i64,
}

#[derive(Debug, Clone)]
pub struct MessageResponse {
    pub status: String,
    pub message: String,
}

#[derive(Debug, Clone)]
pub struct UserProfileResponse {
    pub status: String,
    pub data: UserProfileData,
}

#[derive(Debug, Clone)]
pub struct UserProfileData {
    pub id: u128,
    pub username: String,
    pub email: String,
    pub role: String,
    pub status: String,
    pub email_verified: bool,
    pub last_login_at: Option<String>,
    pub created_at: String,
    pub updated_at: String,
}

#[derive(Debug, Clone)]
pub struct UsersListResponse {
    pub status: String,
    pub data: Vec<UserProfileData>,
    pub total: usize,
}

/// Identifier that follows one request through the logs.
#[derive(Debug, Clone)]
pub struct CorrelationId(pub String);

} // verus!
