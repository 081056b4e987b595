use rust_auth::errors::{AppError, DbFailure};

fn response(e: AppError) -> (u16, String, String) {
    let r = e.into_response();
    (r.status, r.code, r.message)
}

#[test]
fn error_responses_carry_status_code_and_message() {
    let cases: Vec<(AppError, u16, &str, &str)> = vec![
        (AppError::InvalidCredentials, 401, "INVALID_CREDENTIALS", "Invalid credentials"),
        (AppError::InvalidToken, 401, "INVALID_TOKEN", "Invalid or expired token"),
        (AppError::TokenExpired, 401, "TOKEN_EXPIRED", "Token expired"),
        (AppError::InvalidRefreshToken, 401, "INVALID_REFRESH_TOKEN", "Refresh token invalid or expired"),
        (AppError::AccountNotFound, 404, "ACCOUNT_NOT_FOUND", "Account not found"),
        (AppError::AccountAlreadyExists, 409, "ACCOUNT_ALREADY_EXISTS", "Account already exists"),
        (AppError::AccountLocked, 403, "ACCOUNT_LOCKED", "Account locked"),
        (AppError::AccountNotVerified, 403, "ACCOUNT_NOT_VERIFIED", "Account not verified"),
        (AppError::Forbidden, 403, "FORBIDDEN", "Forbidden: insufficient permissions"),
        (AppError::Unauthorized, 401, "UNAUTHORIZED", "Unauthorized"),
        (AppError::ValidationError("bad".to_string()), 400, "VALIDATION_ERROR", "Validation error: bad"),
        (AppError::NotFound("x".to_string()), 404, "NOT_FOUND", "Not found: x"),
        (AppError::DatabaseError("db".to_string()), 500, "DATABASE_ERROR", "Database error: db"),
        (
            AppError::ConfigurationError("cfg".to_string()),
            500,
            "CONFIGURATION_ERROR",
            "Configuration error: cfg",
        ),
        (AppError::InternalError("boom".to_string()), 500, "INTERNAL_ERROR", "Internal server error: boom"),
    ];
    for (e, status, code, message) in cases {
        assert_eq!(e.status_code(), status);
        assert_eq!(e.error_code(), code);
        assert_eq!(e.message(), message);
        assert_eq!(response(e), (status, code.to_string(), message.to_string()));
    }
}

#[test]
fn store_failures_map_to_errors() {
    assert!(matches!(
        AppError::from_db_failure(DbFailure::RowNotFound),
        AppError::NotFound(m) if m == "Resource not found"
    ));
    assert!(matches!(
        AppError::from_db_failure(DbFailure::Protocol("p".into())),
        AppError::DatabaseError(m) if m == "p"
    ));
    assert!(matches!(
        AppError::from_db_failure(DbFailure::PoolClosed),
        AppError::InternalError(m) if m == "Connection pool closed"
    ));
    assert!(matches!(
        AppError::from_db_failure(DbFailure::PoolTimedOut),
        AppError::InternalError(m) if m == "Connection pool timeout"
    ));
    assert!(matches!(
        AppError::from_db_failure(DbFailure::Other("o".into())),
        AppError::DatabaseError(m) if m == "o"
    ));
}

#[test]
fn other_failures_map_to_errors() {
    assert!(matches!(
        AppError::from_cache_failure("down"),
        AppError::InternalError(m) if m == "Cache error: down"
    ));
    assert!(matches!(
        AppError::from_json_failure("eof"),
        AppError::ValidationError(m) if m == "eof"
    ));
    assert!(matches!(
        AppError::from_internal_failure("x"),
        AppError::InternalError(m) if m == "x"
    ));
}
