//! The decisions the user endpoints take before the service runs: whose
//! account a request names, who may see it, and which page is asked for.
use vstd::prelude::*;
use crate::errors::{AppError, ErrorSpec};
use crate::flow::{Command, Step};
use crate::ids::{parse_uuid, uuid_parse, uuid_text, uuid_to_text};
use crate::jwt::Claims;
use crate::schemas::{
    ChangePasswordRequest,
    MessageResponse,
    PaginationQuery,
    UpdateProfileRequest,
    UserProfileResponse,
    UsersListResponse,
};
use crate::text::same_text;
use crate::user::service::{
    page_offset,
    DeleteFlow,
    ListFlow,
    PasswordFlow,
    ProfileFlow,
    ProfileStage,
    UserService,
};
use crate::validation::{password_rule, username_rule};

verus! {

/// The account a token's subject names, if it is an identifier.
pub open spec fn subject_of(claims: Claims) -> Result<u128, ErrorSpec> {
    match uuid_parse(claims.sub@) {
        Some(id) => Ok(id),
        None => Err(ErrorSpec::InternalError("Invalid user ID in token"@)),
    }
}

/// The account a token's subject names.
pub fn subject_user_id(claims: &Claims) -> (r: Result<u128, AppError>)
    ensures
        match r {
            Ok(id) => subject_of(*claims) == Ok::<u128, ErrorSpec>(id),
            Err(e) => subject_of(*claims) == Err::<u128, ErrorSpec>(e@),
        },
        forall|u: u128| claims.sub@ == uuid_text(u) ==> r == Ok::<u128, AppError>(u),
{
    match parse_uuid(claims.sub.as_str()) {
        Some(id) => Ok(id),
        None => Err(AppError::InternalError(String::from_str("Invalid user ID in token"))),
    }
}

/// Whether a token grants the administrator role.
pub open spec fn is_admin(claims: Claims) -> bool {
    claims.role@ == "admin"@
}

/// The page asked for: the first page unless a later one is given, and
/// twenty accounts to a page unless 1 to 100 are asked for.
pub open spec fn page_of(q: PaginationQuery) -> (i64, i64) {
    let page = match q.page {
        Some(p) => p,
        None => 1,
    };
    let per_page = match q.per_page {
        Some(n) => n,
        None => 20,
    };
    (
        if page < 1 { 1 } else { page },
        if per_page < 1 { 1 } else if per_page > 100 { 100 } else { per_page },
    )
}

/// The page asked for, within its bounds.
pub fn page_bounds(q: PaginationQuery) -> (r: (i64, i64))
    ensures
        r == page_of(q),
{
    let page = match q.page {
        Some(p) => p,
        None => 1,
    };
    let per_page = match q.per_page {
        Some(n) => n,
        None => 20,
    };
    let page = if page < 1 { 1 } else { page };
    let per_page = if per_page < 1 { 1 } else if per_page > 100 { 100 } else { per_page };
    (page, per_page)
}

/// GET /api/v1/users/me - the caller's own profile.
pub fn get_me(svc: &UserService, claims: &Claims) -> (r: Step<ProfileFlow, UserProfileResponse>)
    ensures
        match subject_of(*claims) {
            Err(e) => r matches Step::Finish(Err(x)) && x@ == e,
            Ok(id) => r == Step::<ProfileFlow, UserProfileResponse>::Continue(
                ProfileFlow { user_id: id, stage: ProfileStage::Fetching },
                Command::FindUserById(id),
            ),
        },
{
    match subject_user_id(claims) {
        Err(e) => Step::Finish(Err(e)),
        Ok(id) => svc.get_profile(id),
    }
}

/// GET /api/v1/users - a page of all accounts, for administrators only.
pub fn list_users(svc: &UserService, claims: &Claims, query: PaginationQuery) -> (r: Step<
    ListFlow,
    UsersListResponse,
>)
    requires
        is_admin(*claims) ==> i64::MIN <= page_offset(page_of(query).0, page_of(query).1)
            <= i64::MAX,
    ensures
        !is_admin(*claims) ==> (r matches Step::Finish(Err(e)) && e@ == ErrorSpec::Forbidden),
        is_admin(*claims) ==> (r matches Step::Continue(f, Command::ListUsers { limit, offset })
            && f.stage is Listing && limit == page_of(query).1 && offset == page_offset(
            page_of(query).0,
            page_of(query).1,
        )),
{
    if !same_text(claims.role.as_str(), "admin") {
        return Step::Finish(Err(AppError::Forbidden));
    }
    let (page, per_page) = page_bounds(query);
    svc.list_users(page, per_page)
}

/// GET /api/v1/users/:id - an account's profile, for administrators and
/// for the account's own user.
pub fn get_user_by_id(svc: &UserService, claims: &Claims, user_id: u128) -> (r: Step<
    ProfileFlow,
    UserProfileResponse,
>)
    ensures
        (!is_admin(*claims) && claims.sub@ != uuid_text(user_id)) ==> (r matches Step::Finish(
            Err(e),
        ) && e@ == ErrorSpec::Forbidden),
        (is_admin(*claims) || claims.sub@ == uuid_text(user_id)) ==> r == Step::<
            ProfileFlow,
            UserProfileResponse,
        >::Continue(
            ProfileFlow { user_id, stage: ProfileStage::Fetching },
            Command::FindUserById(user_id),
        ),
{
    let own = uuid_to_text(user_id);
    if !same_text(claims.role.as_str(), "admin") && !same_text(claims.sub.as_str(), own.as_str()) {
        return Step::Finish(Err(AppError::Forbidden));
    }
    svc.get_profile(user_id)
}

/// PUT /api/v1/users/me - renames the caller's account when a new name is
/// given, and answers its profile.
pub fn update_profile(svc: &UserService, claims: &Claims, req: &UpdateProfileRequest) -> (r: Step<
    ProfileFlow,
    UserProfileResponse,
>)
    ensures
        match subject_of(*claims) {
            Err(e) => r matches Step::Finish(Err(x)) && x@ == e,
            Ok(id) => match req.username {
                None => r == Step::<ProfileFlow, UserProfileResponse>::Continue(
                    ProfileFlow { user_id: id, stage: ProfileStage::Fetching },
                    Command::FindUserById(id),
                ),
                Some(name) => match username_rule(name@) {
                    Err(e) => r matches Step::Finish(Err(x)) && x@ == e,
                    Ok(()) => r matches Step::Continue(f, Command::UpdateUsername { id: uid, username })
                        && f == (ProfileFlow { user_id: id, stage: ProfileStage::Renaming }) && uid
                        == id && username@ == name@,
                },
            },
        },
{
    let id = match subject_user_id(claims) {
        Err(e) => return Step::Finish(Err(e)),
        Ok(id) => id,
    };
    match &req.username {
        Some(name) => svc.update_username(id, name.as_str()),
        None => svc.get_profile(id),
    }
}

/// POST /api/v1/users/change-password - changes the caller's password.
pub fn change_password(svc: &UserService, claims: &Claims, req: &ChangePasswordRequest) -> (r: Step<
    PasswordFlow,
    (),
>)
    ensures
        match subject_of(*claims) {
            Err(e) => r matches Step::Finish(Err(x)) && x@ == e,
            Ok(id) => match password_rule(req.new_password@) {
                Err(e) => r matches Step::Finish(Err(x)) && x@ == e,
                Ok(()) => r matches Step::Continue(f, Command::FindUserById(uid)) && uid == id
                    && f.user_id == id && f.current_password@ == req.current_password@
                    && f.new_password@ == req.new_password@ && f.stage is Find,
            },
        },
{
    match subject_user_id(claims) {
        Err(e) => Step::Finish(Err(e)),
        Ok(id) => svc.change_password(
            id,
            req.current_password.as_str(),
            req.new_password.as_str(),
        ),
    }
}

/// DELETE /api/v1/users/me - deletes the caller's account.
pub fn delete_account(svc: &UserService, claims: &Claims) -> (r: Step<DeleteFlow, ()>)
    ensures
        match subject_of(*claims) {
            Err(e) => r matches Step::Finish(Err(x)) && x@ == e,
            Ok(id) => r == Step::<DeleteFlow, ()>::Continue(
                DeleteFlow { user_id: id },
                Command::DeleteUser(id),
            ),
        },
{
    match subject_user_id(claims) {
        Err(e) => Step::Finish(Err(e)),
        Ok(id) => svc.delete_account(id),
    }
}

/// The answer to a successful password change.
pub fn password_changed() -> (r: MessageResponse)
    ensures
        r.status@ == "success"@,
        r.message@ == "Password changed successfully"@,
{
    MessageResponse {
        status: String::from_str("success"),
        message: String::from_str("Password changed successfully"),
    }
}

/// The answer to a successful account deletion.
pub fn account_deleted() -> (r: MessageResponse)
    ensures
        r.status@ == "success"@,
        r.message@ == "Account deleted successfully"@,
{
    MessageResponse {
        status: String::from_str("success"),
        message: String::from_str("Account deleted successfully"),
    }
}

} // verus!
