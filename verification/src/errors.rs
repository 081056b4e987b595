use vstd::prelude::*;

verus! {

/// Failure of an application operation, as reported to API clients.
#[derive(Debug, Clone)]
pub enum AppError {
    InvalidCredentials,
    InvalidToken,
    TokenExpired,
    InvalidRefreshToken,
    AccountNotFound,
    AccountAlreadyExists,
    AccountLocked,
    AccountNotVerified,
    Forbidden,
    Unauthorized,
    ValidationError(String),
    DatabaseError(String),
    ConfigurationError(String),
    InternalError(String),
    NotFound(String),
}

/// HTTP status that answers an error.
pub open spec fn status_of(e: AppError) -> u16 {
    match e {
        AppError::InvalidCredentials => 401,
        AppError::InvalidToken => 401,
        AppError::TokenExpired => 401,
        AppError::InvalidRefreshToken => 401,
        AppError::AccountNotFound => 404,
        AppError::AccountAlreadyExists => 409,
        AppError::AccountLocked => 403,
        AppError::AccountNotVerified => 403,
        AppError::Forbidden => 403,
        AppError::Unauthorized => 401,
        AppError::ValidationError(_) => 400,
        AppError::NotFound(_) => 404,
        AppError::DatabaseError(_) => 500,
        AppError::ConfigurationError(_) => 500,
        AppError::InternalError(_) => 500,
    }
}

/// Machine-readable code of an error.
pub open spec fn code_of(e: AppError) -> Seq<char> {
    match e {
        AppError::InvalidCredentials => "INVALID_CREDENTIALS"@,
        AppError::InvalidToken => "INVALID_TOKEN"@,
        AppError::TokenExpired => "TOKEN_EXPIRED"@,
        AppError::InvalidRefreshToken => "INVALID_REFRESH_TOKEN"@,
        AppError::AccountNotFound => "ACCOUNT_NOT_FOUND"@,
        AppError::AccountAlreadyExists => "ACCOUNT_ALREADY_EXISTS"@,
        AppError::AccountLocked => "ACCOUNT_LOCKED"@,
        AppError::AccountNotVerified => "ACCOUNT_NOT_VERIFIED"@,
        AppError::Forbidden => "FORBIDDEN"@,
        AppError::Unauthorized => "UNAUTHORIZED"@,
        AppError::ValidationError(_) => "VALIDATION_ERROR"@,
        AppError::NotFound(_) => "NOT_FOUND"@,
        AppError::DatabaseError(_) => "DATABASE_ERROR"@,
        AppError::ConfigurationError(_) => "CONFIGURATION_ERROR"@,
        AppError::InternalError(_) => "INTERNAL_ERROR"@,
    }
}

/// Human-readable text of an error.
pub open spec fn message_of(e: AppError) -> Seq<char> {
    match e {
        AppError::InvalidCredentials => "Invalid credentials"@,
        AppError::InvalidToken => "Invalid or expired token"@,
        AppError::TokenExpired => "Token expired"@,
        AppError::InvalidRefreshToken => "Refresh token invalid or expired"@,
        AppError::AccountNotFound => "Account not found"@,
        AppError::AccountAlreadyExists => "Account already exists"@,
        AppError::AccountLocked => "Account locked"@,
        AppError::AccountNotVerified => "Account not verified"@,
        AppError::Forbidden => "Forbidden: insufficient permissions"@,
        AppError::Unauthorized => "Unauthorized"@,
        AppError::ValidationError(s) => "Validation error: "@ + s@,
        AppError::DatabaseError(s) => "Database error: "@ + s@,
        AppError::ConfigurationError(s) => "Configuration error: "@ + s@,
        AppError::InternalError(s) => "Internal server error: "@ + s@,
        AppError::NotFound(s) => "Not found: "@ + s@,
    }
}

/// What an error response carries: the HTTP status and the body's code,
/// message and status fields.
pub struct ErrorResponse {
    pub status: u16,
    pub code: String,
    pub message: String,
}

/// An error as a mathematical value: the variant and the text it carries.
pub enum ErrorSpec {
    InvalidCredentials,
    InvalidToken,
    TokenExpired,
    InvalidRefreshToken,
    AccountNotFound,
    AccountAlreadyExists,
    AccountLocked,
    AccountNotVerified,
    Forbidden,
    Unauthorized,
    ValidationError(Seq<char>),
    DatabaseError(Seq<char>),
    ConfigurationError(Seq<char>),
    InternalError(Seq<char>),
    NotFound(Seq<char>),
}

impl View for AppError {
    type V = ErrorSpec;

    open spec fn view(&self) -> ErrorSpec {
        match self {
            AppError::InvalidCredentials => ErrorSpec::InvalidCredentials,
            AppError::InvalidToken => ErrorSpec::InvalidToken,
            AppError::TokenExpired => ErrorSpec::TokenExpired,
            AppError::InvalidRefreshToken => ErrorSpec::InvalidRefreshToken,
            AppError::AccountNotFound => ErrorSpec::AccountNotFound,
            AppError::AccountAlreadyExists => ErrorSpec::AccountAlreadyExists,
            AppError::AccountLocked => ErrorSpec::AccountLocked,
            AppError::AccountNotVerified => ErrorSpec::AccountNotVerified,
            AppError::Forbidden => ErrorSpec::Forbidden,
            AppError::Unauthorized => ErrorSpec::Unauthorized,
            AppError::ValidationError(s) => ErrorSpec::ValidationError(s@),
            AppError::DatabaseError(s) => ErrorSpec::DatabaseError(s@),
            AppError::ConfigurationError(s) => ErrorSpec::ConfigurationError(s@),
            AppError::InternalError(s) => ErrorSpec::InternalError(s@),
            AppError::NotFound(s) => ErrorSpec::NotFound(s@),
        }
    }
}

/// Failures of the relational store, by the kinds the service tells apart.
pub enum DbFailure {
    RowNotFound,
    Protocol(String),
    PoolClosed,
    PoolTimedOut,
    /// Any other failure, with its text.
    Other(String),
}

/// The error that answers a failure of the relational store.
pub open spec fn db_failure_error(f: DbFailure) -> ErrorSpec {
    match f {
        DbFailure::RowNotFound => ErrorSpec::NotFound("Resource not found"@),
        DbFailure::Protocol(s) => ErrorSpec::DatabaseError(s@),
        DbFailure::PoolClosed => ErrorSpec::InternalError("Connection pool closed"@),
        DbFailure::PoolTimedOut => ErrorSpec::InternalError("Connection pool timeout"@),
        DbFailure::Other(s) => ErrorSpec::DatabaseError(s@),
    }
}

impl AppError {
    /// The HTTP status of the response that reports this error.
    pub fn status_code(&self) -> (r: u16)
        ensures
            r == status_of(*self),
    {
        match self {
            AppError::InvalidCredentials => 401,
            AppError::InvalidToken => 401,
            AppError::TokenExpired => 401,
            AppError::InvalidRefreshToken => 401,
            AppError::AccountNotFound => 404,
            AppError::AccountAlreadyExists => 409,
            AppError::AccountLocked => 403,
            AppError::AccountNotVerified => 403,
            AppError::Forbidden => 403,
            AppError::Unauthorized => 401,
            AppError::ValidationError(_) => 400,
            AppError::NotFound(_) => 404,
            AppError::DatabaseError(_) => 500,
            AppError::ConfigurationError(_) => 500,
            AppError::InternalError(_) => 500,
        }
    }

    /// The machine-readable code reported for this error.
    pub fn error_code(&self) -> (r: &'static str)
        ensures
            r@ == code_of(*self),
    {
        match self {
            AppError::InvalidCredentials => "INVALID_CREDENTIALS",
            AppError::InvalidToken => "INVALID_TOKEN",
            AppError::TokenExpired => "TOKEN_EXPIRED",
            AppError::InvalidRefreshToken => "INVALID_REFRESH_TOKEN",
            AppError::AccountNotFound => "ACCOUNT_NOT_FOUND",
            AppError::AccountAlreadyExists => "ACCOUNT_ALREADY_EXISTS",
            AppError::AccountLocked => "ACCOUNT_LOCKED",
            AppError::AccountNotVerified => "ACCOUNT_NOT_VERIFIED",
            AppError::Forbidden => "FORBIDDEN",
            AppError::Unauthorized => "UNAUTHORIZED",
            AppError::ValidationError(_) => "VALIDATION_ERROR",
            AppError::NotFound(_) => "NOT_FOUND",
            AppError::DatabaseError(_) => "DATABASE_ERROR",
            AppError::ConfigurationError(_) => "CONFIGURATION_ERROR",
            AppError::InternalError(_) => "INTERNAL_ERROR",
        }
    }

    /// The human-readable text of this error.
    pub fn message(&self) -> (r: String)
        ensures
            r@ == message_of(*self),
    {
        match self {
            AppError::InvalidCredentials => String::from_str("Invalid credentials"),
            AppError::InvalidToken => String::from_str("Invalid or expired token"),
            AppError::TokenExpired => String::from_str("Token expired"),
            AppError::InvalidRefreshToken => String::from_str("Refresh token invalid or expired"),
            AppError::AccountNotFound => String::from_str("Account not found"),
            AppError::AccountAlreadyExists => String::from_str("Account already exists"),
            AppError::AccountLocked => String::from_str("Account locked"),
            AppError::AccountNotVerified => String::from_str("Account not verified"),
            AppError::Forbidden => String::from_str("Forbidden: insufficient permissions"),
            AppError::Unauthorized => String::from_str("Unauthorized"),
            AppError::ValidationError(s) => String::from_str("Validation error: ").concat(s.as_str()),
            AppError::DatabaseError(s) => String::from_str("Database error: ").concat(s.as_str()),
            AppError::ConfigurationError(s) => String::from_str("Configuration error: ").concat(
                s.as_str(),
            ),
            AppError::InternalError(s) => String::from_str("Internal server error: ").concat(
                s.as_str(),
            ),
            AppError::NotFound(s) => String::from_str("Not found: ").concat(s.as_str()),
        }
    }

    /// The response that reports this error: its status, code and message.
    pub fn into_response(self) -> (r: ErrorResponse)
        ensures
            r.status == status_of(self),
            r.code@ == code_of(self),
            r.message@ == message_of(self),
    {
        let status = self.status_code();
        let code = String::from_str(self.error_code());
        let message = self.message();
        ErrorResponse { status, code, message }
    }

    /// The error that answers a failure of the relational store.
    pub fn from_db_failure(f: DbFailure) -> (r: AppError)
        ensures
            r@ == db_failure_error(f),
    {
        match f {
            DbFailure::RowNotFound => AppError::NotFound(String::from_str("Resource not found")),
            DbFailure::Protocol(s) => AppError::DatabaseError(s),
            DbFailure::PoolClosed => AppError::InternalError(
                String::from_str("Connection pool closed"),
            ),
            DbFailure::PoolTimedOut => AppError::InternalError(
                String::from_str("Connection pool timeout"),
            ),
            DbFailure::Other(s) => AppError::DatabaseError(s),
        }
    }

    /// The error that answers a failure of the session cache, given its text.
    pub fn from_cache_failure(text: &str) -> (r: AppError)
        ensures
            r@ == ErrorSpec::InternalError("Cache error: "@ + text@),
    {
        AppError::InternalError(String::from_str("Cache error: ").concat(text))
    }

    /// The error that answers a malformed JSON document, given the parser's text.
    pub fn from_json_failure(text: &str) -> (r: AppError)
        ensures
            r@ == ErrorSpec::ValidationError(text@),
    {
        AppError::ValidationError(String::from_str(text))
    }

    /// The error that answers any other internal failure, given its text.
    pub fn from_internal_failure(text: &str) -> (r: AppError)
        ensures
            r@ == ErrorSpec::InternalError(text@),
    {
        AppError::InternalError(String::from_str(text))
    }
}

} // verus!
