use vstd::prelude::*;
use crate::errors::{AppError, ErrorSpec};
use crate::flow::{Command, Event, EventKind, Step};
use crate::model::User;
use crate::schemas::{UserProfileData, UserProfileResponse, UsersListResponse};
use crate::text::copy_opt;
use crate::validation::{password_rule, username_rule, validate_password, validate_username};

verus! {

/// The service behind the user-account endpoints.
#[derive(Debug, Clone, Copy)]
pub struct UserService;

/// Whether `d` is the public profile of `u`.
pub open spec fn profile_data_spec(d: UserProfileData, u: User) -> bool {
    &&& d.id == u.id
    &&& d.username == u.username
    &&& d.email == u.email
    &&& d.role == u.role
    &&& d.status == u.status
    &&& d.email_verified == u.email_verified
    &&& d.last_login_at == u.last_login_at
    &&& d.created_at == u.created_at
    &&& d.updated_at == u.updated_at
}

/// Whether `r` answers a profile request with the profile of `u`.
pub open spec fn profile_response_spec(r: UserProfileResponse, u: User) -> bool {
    r.status@ == "success"@ && profile_data_spec(r.data, u)
}

/// The public profile of `u`.
pub fn profile_data(u: &User) -> (d: UserProfileData)
    ensures
        profile_data_spec(d, *u),
{
    UserProfileData {
        id: u.id,
        username: u.username.clone(),
        email: u.email.clone(),
        role: u.role.clone(),
        status: u.status.clone(),
        email_verified: u.email_verified,
        last_login_at: copy_opt(&u.last_login_at),
        created_at: u.created_at.clone(),
        updated_at: u.updated_at.clone(),
    }
}

fn profile_response(u: &User) -> (r: UserProfileResponse)
    ensures
        profile_response_spec(r, *u),
{
    UserProfileResponse { status: String::from_str("success"), data: profile_data(u) }
}

fn user_not_found() -> (e: AppError)
    ensures
        e@ == ErrorSpec::NotFound("User not found"@),
{
    AppError::NotFound(String::from_str("User not found"))
}

// ---------------------------------------------------------------------------
// Profile (read, or rename then read)
// ---------------------------------------------------------------------------

/// Where a profile request stands.
#[derive(Debug, Clone, Copy, PartialEq, Eq, Structural)]
pub enum ProfileStage {
    /// Waiting for the new username to be stored.
    Renaming,
    /// Waiting for the account.
    Fetching,
}

#[derive(Debug, Clone, Copy)]
pub struct ProfileFlow {
    pub user_id: u128,
    pub stage: ProfileStage,
}

impl ProfileFlow {
    pub open spec fn awaiting(&self) -> EventKind {
        match self.stage {
            ProfileStage::Renaming => EventKind::Written,
            ProfileStage::Fetching => EventKind::User,
        }
    }
}

/// What one step of a profile request does with the answer `ev`.
pub open spec fn profile_step_spec(f: ProfileFlow, ev: Event, r: Step<ProfileFlow, UserProfileResponse>) -> bool {
    match f.stage {
        ProfileStage::Renaming => match ev {
            Event::Written(Err(e)) => r == Step::<ProfileFlow, UserProfileResponse>::Finish(Err(e)),
            Event::Written(Ok(())) => r == Step::<ProfileFlow, UserProfileResponse>::Continue(
                ProfileFlow { user_id: f.user_id, stage: ProfileStage::Fetching },
                Command::FindUserById(f.user_id),
            ),
            _ => false,
        },
        ProfileStage::Fetching => match ev {
            Event::User(Err(e)) => r == Step::<ProfileFlow, UserProfileResponse>::Finish(Err(e)),
            Event::User(Ok(None)) => r matches Step::Finish(Err(e)) && e@ == ErrorSpec::NotFound(
                "User not found"@,
            ),
            Event::User(Ok(Some(u))) => r matches Step::Finish(Ok(resp)) && profile_response_spec(
                resp,
                u,
            ),
            _ => false,
        },
    }
}

// ---------------------------------------------------------------------------
// Listing
// ---------------------------------------------------------------------------

/// Where a listing stands.
#[derive(Debug, Clone)]
pub enum ListStage {
    /// Waiting for the page of accounts.
    Listing,
    /// Waiting for the number of accounts, with the page at hand.
    Counting { users: Vec<User> },
}

#[derive(Debug, Clone)]
pub struct ListFlow {
    pub stage: ListStage,
}

impl ListFlow {
    pub open spec fn awaiting(&self) -> EventKind {
        match self.stage {
            ListStage::Listing => EventKind::Users,
            ListStage::Counting { .. } => EventKind::UserCount,
        }
    }
}

/// Whether `r` lists the profiles of `users`, with `total` accounts in all.
pub open spec fn list_response_spec(r: UsersListResponse, users: Seq<User>, total: i64) -> bool {
    &&& r.status@ == "success"@
    &&& r.data@.len() == users.len()
    &&& forall|i: int| 0 <= i < users.len() ==> profile_data_spec(#[trigger] r.data@[i], users[i])
    &&& r.total == total as usize
}

/// What one step of a listing does with the answer `ev`.
pub open spec fn list_step_spec(f: ListFlow, ev: Event, r: Step<ListFlow, UsersListResponse>) -> bool {
    match f.stage {
        ListStage::Listing => match ev {
            Event::Users(Err(e)) => r == Step::<ListFlow, UsersListResponse>::Finish(Err(e)),
            Event::Users(Ok(users)) => r == Step::<ListFlow, UsersListResponse>::Continue(
                ListFlow { stage: ListStage::Counting { users } },
                Command::CountUsers,
            ),
            _ => false,
        },
        ListStage::Counting { users } => match ev {
            Event::UserCount(Err(e)) => r == Step::<ListFlow, UsersListResponse>::Finish(Err(e)),
            Event::UserCount(Ok(n)) => r matches Step::Finish(Ok(resp)) && list_response_spec(
                resp,
                users@,
                n,
            ),
            _ => false,
        },
    }
}

/// Offset of the first account on page `page` of `per_page` accounts.
pub open spec fn page_offset(page: i64, per_page: i64) -> int {
    (page - 1) * per_page
}

#[verifier::truncate]
fn count_as_usize(n: i64) -> (r: usize)
    ensures
        r == n as usize,
{
    n as usize
}

// ---------------------------------------------------------------------------
// Password change
// ---------------------------------------------------------------------------

/// Where a password change stands.
#[derive(Debug, Clone)]
pub enum PasswordStage {
    /// Waiting for the account.
    Find,
    /// Waiting for the current password to be checked.
    Verify,
    /// Waiting for the new password's hash.
    Hash,
    /// Waiting for the new hash to be stored.
    Store,
}

#[derive(Debug, Clone)]
pub struct PasswordFlow {
    pub user_id: u128,
    pub current_password: String,
    pub new_password: String,
    pub stage: PasswordStage,
}

impl PasswordFlow {
    pub open spec fn at(self, stage: PasswordStage) -> PasswordFlow {
        PasswordFlow { stage, ..self }
    }

    pub open spec fn awaiting(&self) -> EventKind {
        match self.stage {
            PasswordStage::Find => EventKind::User,
            PasswordStage::Verify => EventKind::PasswordCheck,
            PasswordStage::Hash => EventKind::PasswordHash,
            PasswordStage::Store => EventKind::Written,
        }
    }
}

/// What one step of a password change does with the answer `ev`.
pub open spec fn password_step_spec(f: PasswordFlow, ev: Event, r: Step<PasswordFlow, ()>) -> bool {
    match f.stage {
        PasswordStage::Find => match ev {
            Event::User(Err(e)) => r == Step::<PasswordFlow, ()>::Finish(Err(e)),
            Event::User(Ok(None)) => r matches Step::Finish(Err(e)) && e@ == ErrorSpec::NotFound(
                "User not found"@,
            ),
            Event::User(Ok(Some(u))) => r matches Step::Continue(
                f2,
                Command::VerifyPassword { password, hash },
            ) && f2 == f.at(PasswordStage::Verify) && password@ == f.current_password@ && hash@
                == u.password_hash@,
            _ => false,
        },
        PasswordStage::Verify => match ev {
            Event::PasswordCheck(Err(_)) => r matches Step::Finish(Err(e)) && e@
                == ErrorSpec::InternalError("Password verification failed"@),
            Event::PasswordCheck(Ok(false)) => r matches Step::Finish(Err(e)) && e@
                == ErrorSpec::InvalidCredentials,
            Event::PasswordCheck(Ok(true)) => r matches Step::Continue(f2, Command::HashPassword(p))
                && f2 == f.at(PasswordStage::Hash) && p@ == f.new_password@,
            _ => false,
        },
        PasswordStage::Hash => match ev {
            Event::PasswordHash(Err(m)) => r matches Step::Finish(Err(e)) && e@
                == ErrorSpec::InternalError("Password hashing failed: "@ + m@),
            Event::PasswordHash(Ok(h)) => r == Step::<PasswordFlow, ()>::Continue(
                f.at(PasswordStage::Store),
                Command::UpdatePassword { id: f.user_id, password_hash: h },
            ),
            _ => false,
        },
        PasswordStage::Store => match ev {
            Event::Written(w) => r == Step::<PasswordFlow, ()>::Finish(w),
            _ => false,
        },
    }
}

// ---------------------------------------------------------------------------
// Deletion
// ---------------------------------------------------------------------------

/// An account deletion, waiting for the account to be deleted.
#[derive(Debug, Clone, Copy)]
pub struct DeleteFlow {
    pub user_id: u128,
}

impl UserService {
    pub fn new() -> UserService {
        UserService
    }

    /// The profile of account `user_id`: asks for the account.
    pub fn get_profile(&self, user_id: u128) -> (r: Step<ProfileFlow, UserProfileResponse>)
        ensures
            r == Step::<ProfileFlow, UserProfileResponse>::Continue(
                ProfileFlow { user_id, stage: ProfileStage::Fetching },
                Command::FindUserById(user_id),
            ),
    {
        Step::Continue(
            ProfileFlow { user_id, stage: ProfileStage::Fetching },
            Command::FindUserById(user_id),
        )
    }

    /// Renames account `user_id` and answers its new profile: the name is
    /// validated first, then stored.
    pub fn update_username(&self, user_id: u128, new_username: &str) -> (r: Step<
        ProfileFlow,
        UserProfileResponse,
    >)
        ensures
            match username_rule(new_username@) {
                Err(e) => r matches Step::Finish(Err(x)) && x@ == e,
                Ok(()) => r matches Step::Continue(f, Command::UpdateUsername { id, username })
                    && f == (ProfileFlow { user_id, stage: ProfileStage::Renaming }) && id
                    == user_id && username@ == new_username@,
            },
    {
        if let Err(e) = validate_username(new_username) {
            return Step::Finish(Err(e));
        }
        Step::Continue(
            ProfileFlow { user_id, stage: ProfileStage::Renaming },
            Command::UpdateUsername { id: user_id, username: String::from_str(new_username) },
        )
    }

    /// Takes one step of a profile request.
    pub fn profile_step(&self, f: ProfileFlow, ev: Event) -> (r: Step<ProfileFlow, UserProfileResponse>)
        requires
            ev.kind_spec() == f.awaiting(),
        ensures
            profile_step_spec(f, ev, r),
            r matches Step::Continue(f2, c) ==> f2.awaiting() == c.reply_kind_spec(),
    {
        match f.stage {
            ProfileStage::Renaming => match ev {
                Event::Written(Err(e)) => Step::Finish(Err(e)),
                Event::Written(Ok(())) => Step::Continue(
                    ProfileFlow { user_id: f.user_id, stage: ProfileStage::Fetching },
                    Command::FindUserById(f.user_id),
                ),
                _ => {
                    assert(false);
                    Step::Finish(Err(AppError::Unauthorized))
                },
            },
            ProfileStage::Fetching => match ev {
                Event::User(Err(e)) => Step::Finish(Err(e)),
                Event::User(Ok(None)) => Step::Finish(Err(user_not_found())),
                Event::User(Ok(Some(u))) => Step::Finish(Ok(profile_response(&u))),
                _ => {
                    assert(false);
                    Step::Finish(Err(AppError::Unauthorized))
                },
            },
        }
    }

    /// Page `page` of the accounts, `per_page` to a page: asks for that page.
    pub fn list_users(&self, page: i64, per_page: i64) -> (r: Step<ListFlow, UsersListResponse>)
        requires
            i64::MIN <= page_offset(page, per_page) <= i64::MAX,
            page - 1 >= i64::MIN,
        ensures
            r matches Step::Continue(f, Command::ListUsers { limit, offset }) && f.stage
                is Listing && limit == per_page && offset == page_offset(page, per_page),
    {
        let offset = (page - 1) * per_page;
        Step::Continue(
            ListFlow { stage: ListStage::Listing },
            Command::ListUsers { limit: per_page, offset },
        )
    }

    /// Takes one step of a listing.
    pub fn list_step(&self, f: ListFlow, ev: Event) -> (r: Step<ListFlow, UsersListResponse>)
        requires
            ev.kind_spec() == f.awaiting(),
        ensures
            list_step_spec(f, ev, r),
            r matches Step::Continue(f2, c) ==> f2.awaiting() == c.reply_kind_spec(),
    {
        match f.stage {
            ListStage::Listing => match ev {
                Event::Users(Err(e)) => Step::Finish(Err(e)),
                Event::Users(Ok(users)) => Step::Continue(
                    ListFlow { stage: ListStage::Counting { users } },
                    Command::CountUsers,
                ),
                _ => {
                    assert(false);
                    Step::Finish(Err(AppError::Unauthorized))
                },
            },
            ListStage::Counting { users } => match ev {
                Event::UserCount(Err(e)) => Step::Finish(Err(e)),
                Event::UserCount(Ok(n)) => {
                    let mut data: Vec<UserProfileData> = Vec::new();
                    let mut i: usize = 0;
                    while i < users.len()
                        invariant
                            i <= users.len(),
                            data@.len() == i,
                            forall|j: int|
                                0 <= j < i ==> profile_data_spec(#[trigger] data@[j], users@[j]),
                        decreases users.len() - i,
                    {
                        data.push(profile_data(&users[i]));
                        i = i + 1;
                    }
                    Step::Finish(
                        Ok(
                            UsersListResponse {
                                status: String::from_str("success"),
                                data,
                                total: count_as_usize(n),
                            },
                        ),
                    )
                },
                _ => {
                    assert(false);
                    Step::Finish(Err(AppError::Unauthorized))
                },
            },
        }
    }

    /// Changes the password of account `user_id`: the new password is
    /// validated first, then the account is asked for.
    pub fn change_password(
        &self,
        user_id: u128,
        current_password: &str,
        new_password: &str,
    ) -> (r: Step<PasswordFlow, ()>)
        ensures
            match password_rule(new_password@) {
                Err(e) => r matches Step::Finish(Err(x)) && x@ == e,
                Ok(()) => r matches Step::Continue(f, Command::FindUserById(id)) && id == user_id
                    && f.user_id == user_id && f.current_password@ == current_password@
                    && f.new_password@ == new_password@ && f.stage is Find,
            },
    {
        if let Err(e) = validate_password(new_password) {
            return Step::Finish(Err(e));
        }
        Step::Continue(
            PasswordFlow {
                user_id,
                current_password: String::from_str(current_password),
                new_password: String::from_str(new_password),
                stage: PasswordStage::Find,
            },
            Command::FindUserById(user_id),
        )
    }

    /// Takes one step of a password change.
    pub fn password_step(&self, f: PasswordFlow, ev: Event) -> (r: Step<PasswordFlow, ()>)
        requires
            ev.kind_spec() == f.awaiting(),
        ensures
            password_step_spec(f, ev, r),
            r matches Step::Continue(f2, c) ==> f2.awaiting() == c.reply_kind_spec(),
    {
        let PasswordFlow { user_id, current_password, new_password, stage } = f;
        match stage {
            PasswordStage::Find => match ev {
                Event::User(Err(e)) => Step::Finish(Err(e)),
                Event::User(Ok(None)) => Step::Finish(Err(user_not_found())),
                Event::User(Ok(Some(u))) => {
                    let cmd = Command::VerifyPassword {
                        password: current_password.clone(),
                        hash: u.password_hash.clone(),
                    };
                    Step::Continue(
                        PasswordFlow { user_id, current_password, new_password, stage: PasswordStage::Verify },
                        cmd,
                    )
                },
                _ => {
                    assert(false);
                    Step::Finish(Err(AppError::Unauthorized))
                },
            },
            PasswordStage::Verify => match ev {
                Event::PasswordCheck(Err(_)) => Step::Finish(
                    Err(AppError::InternalError(String::from_str("Password verification failed"))),
                ),
                Event::PasswordCheck(Ok(valid)) => {
                    if !valid {
                        return Step::Finish(Err(AppError::InvalidCredentials));
                    }
                    let cmd = Command::HashPassword(new_password.clone());
                    Step::Continue(
                        PasswordFlow { user_id, current_password, new_password, stage: PasswordStage::Hash },
                        cmd,
                    )
                },
                _ => {
                    assert(false);
                    Step::Finish(Err(AppError::Unauthorized))
                },
            },
            PasswordStage::Hash => match ev {
                Event::PasswordHash(Err(m)) => Step::Finish(
                    Err(
                        AppError::InternalError(
                            String::from_str("Password hashing failed: ").concat(m.as_str()),
                        ),
                    ),
                ),
                Event::PasswordHash(Ok(h)) => Step::Continue(
                    PasswordFlow { user_id, current_password, new_password, stage: PasswordStage::Store },
                    Command::UpdatePassword { id: user_id, password_hash: h },
                ),
                _ => {
                    assert(false);
                    Step::Finish(Err(AppError::Unauthorized))
                },
            },
            PasswordStage::Store => match ev {
                Event::Written(w) => Step::Finish(w),
                _ => {
                    assert(false);
                    Step::Finish(Err(AppError::Unauthorized))
                },
            },
        }
    }

    /// Deletes account `user_id`.
    pub fn delete_account(&self, user_id: u128) -> (r: Step<DeleteFlow, ()>)
        ensures
            r == Step::<DeleteFlow, ()>::Continue(DeleteFlow { user_id }, Command::DeleteUser(user_id)),
    {
        Step::Continue(DeleteFlow { user_id }, Command::DeleteUser(user_id))
    }

    /// Finishes an account deletion with the store's answer.
    pub fn delete_step(&self, f: DeleteFlow, ev: Event) -> (r: Step<DeleteFlow, ()>)
        requires
            ev.kind_spec() == EventKind::Written,
        ensures
            ev matches Event::Written(w) && r == Step::<DeleteFlow, ()>::Finish(w),
    {
        match ev {
            Event::Written(w) => Step::Finish(w),
            _ => {
                assert(false);
                Step::Finish(Err(AppError::Unauthorized))
            },
        }
    }
}

} // verus!
