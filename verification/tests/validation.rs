use rust_auth::errors::AppError;
use rust_auth::validation::{
    check_email_match, check_password_strength, check_username_match, validate_email,
    validate_password, validate_username,
};

#[test]
fn test_email_validation() {
    assert!(validate_email("test@example.com").is_ok());
    assert!(validate_email("user.name+tag@domain.co.uk").is_ok());
    assert!(validate_email("invalid").is_err());
    assert!(validate_email("@domain.com").is_err());
    assert!(validate_email("").is_err());
}

#[test]
fn test_password_validation() {
    assert!(validate_password("Abcdef1!").is_ok());
    assert!(validate_password("Pass1234!Strong").is_ok());
    assert!(validate_password("short1A!").is_ok()); // exactly 8 characters
    assert!(validate_password("shrt1A!").is_err()); // < 8
    assert!(validate_password("nouppercase1!").is_err());
    assert!(validate_password("NOLOWERCASE1!").is_err());
    assert!(validate_password("NoDigits!@").is_err());
    assert!(validate_password("NoSpecialChar1").is_err());
}

#[test]
fn test_username_validation() {
    assert!(validate_username("john_doe").is_ok());
    assert!(validate_username("abc").is_ok());
    assert!(validate_username("ab").is_err()); // too short
    assert!(validate_username("user name").is_err()); // space
    assert!(validate_username("user-name").is_err()); // hyphen
}

fn validation_text(r: Result<(), AppError>) -> String {
    match r {
        Err(AppError::ValidationError(m)) => m,
        other => panic!("expected a validation error, got {:?}", other),
    }
}

#[test]
fn password_errors_name_the_first_missing_rule() {
    assert_eq!(
        validation_text(validate_password("Ab1!")),
        "Password must be at least 8 characters long"
    );
    let long = format!("Aa1!{}", "x".repeat(125));
    assert_eq!(long.len(), 129);
    assert_eq!(
        validation_text(validate_password(&long)),
        "Password too long (max 128 characters)"
    );
    let longest = format!("Aa1!{}", "x".repeat(124));
    assert!(validate_password(&longest).is_ok());
    assert_eq!(
        validation_text(validate_password("nouppercase1!")),
        "Password must contain at least one uppercase letter"
    );
    assert_eq!(
        validation_text(validate_password("NOLOWERCASE1!")),
        "Password must contain at least one lowercase letter"
    );
    assert_eq!(
        validation_text(validate_password("NoDigits!@")),
        "Password must contain at least one digit"
    );
    assert_eq!(
        validation_text(validate_password("NoSpecialChar1")),
        "Password must contain at least one special character"
    );
}

#[test]
fn password_length_counts_characters() {
    // seven characters, eleven bytes: too short
    assert_eq!(
        validation_text(validate_password("Aé1!ééé")),
        "Password must be at least 8 characters long"
    );
    // eight characters, sixteen bytes
    assert!(validate_password("Aé1!éééé").is_ok());
    // 128 characters of two bytes each
    let wide = format!("Aa1!{}", "é".repeat(124));
    assert!(wide.len() > 128);
    assert!(validate_password(&wide).is_ok());
    // non-ASCII letters count as upper and lower case
    assert!(validate_password("ÀÀÀààà1!").is_ok());
    // the first character may be of any class
    assert!(validate_password("aB1!aaaa").is_ok());
}

#[test]
fn password_rule_on_given_classes() {
    assert!(check_password_strength(8, true, true, true, true).is_ok());
    assert!(check_password_strength(128, true, true, true, true).is_ok());
    assert_eq!(
        validation_text(check_password_strength(7, true, true, true, true)),
        "Password must be at least 8 characters long"
    );
    assert_eq!(
        validation_text(check_password_strength(129, false, false, false, false)),
        "Password too long (max 128 characters)"
    );
    assert_eq!(
        validation_text(check_password_strength(10, true, true, true, false)),
        "Password must contain at least one special character"
    );
    assert!(check_password_strength(10, true, true, true, true).is_ok());
}

#[test]
fn email_errors() {
    assert_eq!(validation_text(validate_email("no-at-sign")), "Invalid email format");
    assert_eq!(validation_text(validate_email("a@b.c")), "Invalid email format");
    let long = format!("{}@example.com", "a".repeat(243));
    assert_eq!(long.len(), 255);
    assert_eq!(
        validation_text(validate_email(&long)),
        "Email too long (max 254 characters)"
    );
    let longest = format!("{}@example.com", "a".repeat(242));
    assert!(validate_email(&longest).is_ok());
    assert!(matches!(
        check_email_match(None, 10),
        Err(AppError::InternalError(m)) if m == "Regex compilation failed"
    ));
    assert!(check_email_match(Some(true), 254).is_ok());
}

#[test]
fn username_errors() {
    assert_eq!(
        validation_text(validate_username("ab")),
        "Username must be at least 3 characters long"
    );
    assert_eq!(
        validation_text(validate_username(&"a".repeat(33))),
        "Username too long (max 32 characters)"
    );
    assert!(validate_username(&"a".repeat(32)).is_ok());
    // lengths count characters: two characters of two bytes each are too few
    assert_eq!(
        validation_text(validate_username("éé")),
        "Username must be at least 3 characters long"
    );
    assert_eq!(
        validation_text(validate_username("ééé")),
        "Username can only contain letters, numbers, and underscores"
    );
    assert_eq!(
        validation_text(validate_username("user-name")),
        "Username can only contain letters, numbers, and underscores"
    );
    assert!(matches!(
        check_username_match(5, None),
        Err(AppError::InternalError(m)) if m == "Regex compilation failed"
    ));
}
