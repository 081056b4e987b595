use rust_auth::errors::AppError;
use rust_auth::flow::{Command, Event, Step};
use rust_auth::jwt::Claims;
use rust_auth::model::User;
use rust_auth::schemas::{ChangePasswordRequest, PaginationQuery, UpdateProfileRequest};
use rust_auth::user::controller::{
    account_deleted, change_password, delete_account, get_me, get_user_by_id, list_users, page_bounds,
    password_changed, subject_user_id, update_profile,
};
use rust_auth::user::service::UserService;

fn text_of(id: u128) -> String {
    uuid::Uuid::from_u128(id).to_string()
}

fn user(id: u128) -> User {
    User {
        id,
        username: format!("user{id}"),
        email: format!("user{id}@example.com"),
        password_hash: "HASH".into(),
        role: "user".into(),
        status: "active".into(),
        email_verified: true,
        last_login_at: Some("2024-02-01T00:00:00+00:00".into()),
        created_at: "2024-01-01T00:00:00+00:00".into(),
        updated_at: "2024-01-02T00:00:00+00:00".into(),
    }
}

fn claims(id: u128, role: &str) -> Claims {
    Claims {
        sub: text_of(id),
        email: String::new(),
        session_id: String::new(),
        role: role.into(),
        exp: 0,
        iat: 0,
        iss: String::new(),
        aud: String::new(),
    }
}

#[test]
fn profiles() {
    let svc = UserService::new();
    let f = match get_me(&svc, &claims(3, "user")) {
        Step::Continue(f, Command::FindUserById(3)) => f,
        other => panic!("{other:?}"),
    };
    match svc.profile_step(f, Event::User(Ok(Some(user(3))))) {
        Step::Finish(Ok(p)) => {
            assert_eq!(p.status, "success");
            assert_eq!(p.data.id, 3);
            assert_eq!(p.data.username, "user3");
            assert_eq!(p.data.last_login_at.as_deref(), Some("2024-02-01T00:00:00+00:00"));
            assert_eq!(p.data.updated_at, "2024-01-02T00:00:00+00:00");
        }
        other => panic!("{other:?}"),
    }
    assert!(matches!(
        svc.profile_step(f, Event::User(Ok(None))),
        Step::Finish(Err(AppError::NotFound(m))) if m == "User not found"
    ));
    let mut bad = claims(3, "user");
    bad.sub = "garbage".into();
    assert!(matches!(
        get_me(&svc, &bad),
        Step::Finish(Err(AppError::InternalError(m))) if m == "Invalid user ID in token"
    ));
    assert_eq!(subject_user_id(&claims(42, "user")).unwrap(), 42);
}

#[test]
fn only_admins_and_owners_see_accounts() {
    let svc = UserService::new();
    assert!(matches!(get_user_by_id(&svc, &claims(1, "user"), 2), Step::Finish(Err(AppError::Forbidden))));
    assert!(matches!(get_user_by_id(&svc, &claims(2, "user"), 2), Step::Continue(_, Command::FindUserById(2))));
    assert!(matches!(get_user_by_id(&svc, &claims(1, "admin"), 2), Step::Continue(_, Command::FindUserById(2))));
    let q = PaginationQuery { page: None, per_page: None };
    assert!(matches!(list_users(&svc, &claims(1, "user"), q), Step::Finish(Err(AppError::Forbidden))));
}

#[test]
fn listing_pages() {
    let svc = UserService::new();
    assert_eq!(page_bounds(PaginationQuery { page: None, per_page: None }), (1, 20));
    assert_eq!(page_bounds(PaginationQuery { page: Some(0), per_page: Some(0) }), (1, 1));
    assert_eq!(page_bounds(PaginationQuery { page: Some(-5), per_page: Some(500) }), (1, 100));
    assert_eq!(page_bounds(PaginationQuery { page: Some(3), per_page: Some(10) }), (3, 10));
    let q = PaginationQuery { page: Some(3), per_page: Some(10) };
    let f = match list_users(&svc, &claims(1, "admin"), q) {
        Step::Continue(f, Command::ListUsers { limit: 10, offset: 20 }) => f,
        other => panic!("{other:?}"),
    };
    let f = match svc.list_step(f, Event::Users(Ok(vec![user(1), user(2)]))) {
        Step::Continue(f, Command::CountUsers) => f,
        other => panic!("{other:?}"),
    };
    match svc.list_step(f, Event::UserCount(Ok(42))) {
        Step::Finish(Ok(r)) => {
            assert_eq!(r.status, "success");
            assert_eq!(r.total, 42);
            assert_eq!(r.data.len(), 2);
            assert_eq!(r.data[1].email, "user2@example.com");
        }
        other => panic!("{other:?}"),
    }
}

#[test]
fn renaming() {
    let svc = UserService::new();
    let req = UpdateProfileRequest { username: Some("new_name".into()) };
    let f = match update_profile(&svc, &claims(4, "user"), &req) {
        Step::Continue(f, Command::UpdateUsername { id: 4, username }) => {
            assert_eq!(username, "new_name");
            f
        }
        other => panic!("{other:?}"),
    };
    assert!(matches!(svc.profile_step(f, Event::Written(Ok(()))), Step::Continue(_, Command::FindUserById(4))));
    let bad = UpdateProfileRequest { username: Some("x y".into()) };
    assert!(matches!(
        update_profile(&svc, &claims(4, "user"), &bad),
        Step::Finish(Err(AppError::ValidationError(_)))
    ));
    let none = UpdateProfileRequest { username: None };
    assert!(matches!(update_profile(&svc, &claims(4, "user"), &none), Step::Continue(_, Command::FindUserById(4))));
}

#[test]
fn password_changes() {
    let svc = UserService::new();
    let req = ChangePasswordRequest { current_password: "Old1!old".into(), new_password: "Newpass1!".into() };
    let f = match change_password(&svc, &claims(5, "user"), &req) {
        Step::Continue(f, Command::FindUserById(5)) => f,
        other => panic!("{other:?}"),
    };
    let f = match svc.password_step(f, Event::User(Ok(Some(user(5))))) {
        Step::Continue(f, Command::VerifyPassword { password, hash }) => {
            assert_eq!((password.as_str(), hash.as_str()), ("Old1!old", "HASH"));
            f
        }
        other => panic!("{other:?}"),
    };
    assert!(matches!(
        svc.password_step(f.clone(), Event::PasswordCheck(Ok(false))),
        Step::Finish(Err(AppError::InvalidCredentials))
    ));
    let f = match svc.password_step(f, Event::PasswordCheck(Ok(true))) {
        Step::Continue(f, Command::HashPassword(p)) => {
            assert_eq!(p, "Newpass1!");
            f
        }
        other => panic!("{other:?}"),
    };
    let f = match svc.password_step(f, Event::PasswordHash(Ok("NEW".into()))) {
        Step::Continue(f, Command::UpdatePassword { id: 5, password_hash }) => {
            assert_eq!(password_hash, "NEW");
            f
        }
        other => panic!("{other:?}"),
    };
    assert!(matches!(svc.password_step(f, Event::Written(Ok(()))), Step::Finish(Ok(()))));
    let weak = ChangePasswordRequest { current_password: "x".into(), new_password: "weak".into() };
    assert!(matches!(
        change_password(&svc, &claims(5, "user"), &weak),
        Step::Finish(Err(AppError::ValidationError(_)))
    ));
    assert_eq!(password_changed().message, "Password changed successfully");
}

#[test]
fn deleting() {
    let svc = UserService::new();
    let f = match delete_account(&svc, &claims(6, "user")) {
        Step::Continue(f, Command::DeleteUser(6)) => f,
        other => panic!("{other:?}"),
    };
    assert!(matches!(svc.delete_step(f, Event::Written(Ok(()))), Step::Finish(Ok(()))));
    assert_eq!(account_deleted().status, "success");
    assert_eq!(account_deleted().message, "Account deleted successfully");
}
