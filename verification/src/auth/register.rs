use vstd::prelude::*;
use crate::config::JwtSettings;
use crate::auth::service::{
    auth_response_spec,
    begin_issue_spec,
    lifted,
    AuthService,
    Issue,
    IssueStep,
    Issued,
};
use crate::errors::{AppError, ErrorSpec};
use crate::flow::{Command, Event, EventKind, Step};
use crate::ids::{is_random_v4, new_random_id};
use crate::text::copy_opt;
use crate::schemas::{AuthResponse, RegisterRequest};
use crate::validation::{
    email_rule,
    password_rule,
    username_rule,
    validate_email,
    validate_password,
    validate_username,
};

verus! {

/// Where a registration stands.
#[derive(Debug, Clone)]
pub enum RegisterStage {
    /// Waiting to learn whether the email is taken.
    CheckEmail,
    /// Waiting to learn whether the username is taken.
    CheckUsername,
    /// Waiting for the password's hash.
    Hash,
    /// Waiting for the account `user_id` to be stored.
    Create { user_id: u128 },
    /// Issuing the first session of the new account.
    Issuing(Issue),
}

/// A registration in progress.
#[derive(Debug, Clone)]
pub struct RegisterFlow {
    pub req: RegisterRequest,
    pub ip_address: Option<String>,
    pub user_agent: Option<String>,
    pub stage: RegisterStage,
}

impl RegisterFlow {
    pub open spec fn at(self, stage: RegisterStage) -> RegisterFlow {
        RegisterFlow { stage, ..self }
    }

    /// The kind of answer this registration waits for.
    pub open spec fn awaiting(&self) -> EventKind {
        match self.stage {
            RegisterStage::CheckEmail => EventKind::User,
            RegisterStage::CheckUsername => EventKind::User,
            RegisterStage::Hash => EventKind::PasswordHash,
            RegisterStage::Create { .. } => EventKind::CreatedUser,
            RegisterStage::Issuing(i) => i.awaiting(),
        }
    }

    /// Whether a time handed to the session being issued gives its token a
    /// representable expiry (other answers need nothing).
    pub open spec fn clock_fits(&self, jwt: JwtSettings, ev: Event) -> bool {
        match self.stage {
            RegisterStage::Issuing(i) => i.clock_fits(jwt, ev),
            _ => true,
        }
    }
}

/// How a registration starts: the email, password and username are
/// validated in that order, then the email is looked up.
pub open spec fn register_start_spec(
    req: RegisterRequest,
    ip_address: Option<String>,
    user_agent: Option<String>,
    r: Step<RegisterFlow, AuthResponse>,
) -> bool {
    if email_rule(req.email@) is Err {
        r matches Step::Finish(Err(e)) && Err::<(), ErrorSpec>(e@) == email_rule(req.email@)
    } else if password_rule(req.password@) is Err {
        r matches Step::Finish(Err(e)) && Err::<(), ErrorSpec>(e@) == password_rule(req.password@)
    } else if username_rule(req.username@) is Err {
        r matches Step::Finish(Err(e)) && Err::<(), ErrorSpec>(e@) == username_rule(req.username@)
    } else {
        r matches Step::Continue(f, Command::FindUserByEmail(email)) && email@ == req.email@ && f
            == (RegisterFlow { req, ip_address, user_agent, stage: RegisterStage::CheckEmail })
    }
}

/// What one step of a registration does with the answer `ev`.
pub open spec fn register_step_spec(
    svc: AuthService,
    f: RegisterFlow,
    ev: Event,
    r: Step<RegisterFlow, AuthResponse>,
) -> bool {
    match f.stage {
        RegisterStage::CheckEmail => match ev {
            Event::User(Err(e)) => r == Step::<RegisterFlow, AuthResponse>::Finish(Err(e)),
            Event::User(Ok(Some(_))) => r matches Step::Finish(Err(e)) && e@
                == ErrorSpec::AccountAlreadyExists,
            Event::User(Ok(None)) => r matches Step::Continue(f2, Command::FindUserByUsername(name))
                && f2 == f.at(RegisterStage::CheckUsername) && name@ == f.req.username@,
            _ => false,
        },
        RegisterStage::CheckUsername => match ev {
            Event::User(Err(e)) => r == Step::<RegisterFlow, AuthResponse>::Finish(Err(e)),
            Event::User(Ok(Some(_))) => r matches Step::Finish(Err(e)) && e@
                == ErrorSpec::ValidationError("Username already taken"@),
            Event::User(Ok(None)) => r matches Step::Continue(f2, Command::HashPassword(p)) && f2
                == f.at(RegisterStage::Hash) && p@ == f.req.password@,
            _ => false,
        },
        RegisterStage::Hash => match ev {
            Event::PasswordHash(Err(m)) => r matches Step::Finish(Err(e)) && e@
                == ErrorSpec::InternalError("Password hashing failed: "@ + m@),
            Event::PasswordHash(Ok(h)) => r matches Step::Continue(
                f2,
                Command::CreateUser { id, username, email, password_hash },
            ) && f2 == f.at(RegisterStage::Create { user_id: id }) && is_random_v4(id) && username@
                == f.req.username@ && email@ == f.req.email@ && password_hash == h,
            _ => false,
        },
        RegisterStage::Create { user_id } => match ev {
            Event::CreatedUser(Err(e)) => r == Step::<RegisterFlow, AuthResponse>::Finish(Err(e)),
            Event::CreatedUser(Ok(user)) => r matches Step::Continue(f2, c) && f2.stage matches RegisterStage::Issuing(i)
                && f2 == f.at(RegisterStage::Issuing(i)) && begin_issue_spec(
                svc.jwt,
                user,
                f.ip_address,
                f.user_agent,
                i,
                c,
            ),
            _ => false,
        },
        RegisterStage::Issuing(i) => exists|ir: IssueStep|
            #![trigger svc.issue_step_spec_at(i, ev, ir)]
            svc.issue_step_spec_at(i, ev, ir) && lifted(
                ir,
                r,
                |i2: Issue| f.at(RegisterStage::Issuing(i2)),
                |resp: AuthResponse, is: Issued| auth_response_spec(resp, is, svc.jwt),
            ),
    }
}

impl AuthService {
    /// Register a new user account: validates the request, then asks whether
    /// its email is taken.
    pub fn register(
        &self,
        req: RegisterRequest,
        ip_address: Option<String>,
        user_agent: Option<String>,
    ) -> (r: Step<RegisterFlow, AuthResponse>)
        ensures
            register_start_spec(req, ip_address, user_agent, r),
            r matches Step::Continue(f, c) ==> f.awaiting() == c.reply_kind_spec(),
    {
        if let Err(e) = validate_email(req.email.as_str()) {
            return Step::Finish(Err(e));
        }
        if let Err(e) = validate_password(req.password.as_str()) {
            return Step::Finish(Err(e));
        }
        if let Err(e) = validate_username(req.username.as_str()) {
            return Step::Finish(Err(e));
        }
        let email = req.email.clone();
        Step::Continue(
            RegisterFlow { req, ip_address, user_agent, stage: RegisterStage::CheckEmail },
            Command::FindUserByEmail(email),
        )
    }

    /// Takes one step of a registration.
    pub fn register_step(&self, f: RegisterFlow, ev: Event) -> (r: Step<RegisterFlow, AuthResponse>)
        requires
            ev.kind_spec() == f.awaiting(),
            f.clock_fits(self.jwt, ev),
        ensures
            register_step_spec(*self, f, ev, r),
            r matches Step::Continue(f2, c) ==> f2.awaiting() == c.reply_kind_spec(),
    {
        let RegisterFlow { req, ip_address, user_agent, stage } = f;
        match stage {
            RegisterStage::CheckEmail => match ev {
                Event::User(Err(e)) => Step::Finish(Err(e)),
                Event::User(Ok(Some(_))) => Step::Finish(Err(AppError::AccountAlreadyExists)),
                Event::User(Ok(None)) => {
                    let name = req.username.clone();
                    Step::Continue(
                        RegisterFlow {
                            req,
                            ip_address,
                            user_agent,
                                stage: RegisterStage::CheckUsername,
                        },
                        Command::FindUserByUsername(name),
                    )
                },
                _ => {
                    assert(false);
                    Step::Finish(Err(AppError::Unauthorized))
                },
            },
            RegisterStage::CheckUsername => match ev {
                Event::User(Err(e)) => Step::Finish(Err(e)),
                Event::User(Ok(Some(_))) => Step::Finish(
                    Err(AppError::ValidationError(String::from_str("Username already taken"))),
                ),
                Event::User(Ok(None)) => {
                    let password = req.password.clone();
                    Step::Continue(
                        RegisterFlow { req, ip_address, user_agent, stage: RegisterStage::Hash },
                        Command::HashPassword(password),
                    )
                },
                _ => {
                    assert(false);
                    Step::Finish(Err(AppError::Unauthorized))
                },
            },
            RegisterStage::Hash => match ev {
                Event::PasswordHash(Err(m)) => Step::Finish(
                    Err(
                        AppError::InternalError(
                            String::from_str("Password hashing failed: ").concat(m.as_str()),
                        ),
                    ),
                ),
                Event::PasswordHash(Ok(h)) => {
                    let user_id = new_random_id();
                    let cmd = Command::CreateUser {
                        id: user_id,
                        username: req.username.clone(),
                        email: req.email.clone(),
                        password_hash: h,
                    };
                    Step::Continue(
                        RegisterFlow {
                            req,
                            ip_address,
                            user_agent,
                                stage: RegisterStage::Create { user_id },
                        },
                        cmd,
                    )
                },
                _ => {
                    assert(false);
                    Step::Finish(Err(AppError::Unauthorized))
                },
            },
            RegisterStage::Create { user_id } => match ev {
                Event::CreatedUser(Err(e)) => Step::Finish(Err(e)),
                Event::CreatedUser(Ok(user)) => {
                    let (i, c) = self.begin_issue(user, copy_opt(&ip_address), copy_opt(&user_agent));
                    Step::Continue(
                        RegisterFlow {
                            req,
                            ip_address,
                            user_agent,
                                stage: RegisterStage::Issuing(i),
                        },
                        c,
                    )
                },
                _ => {
                    assert(false);
                    Step::Finish(Err(AppError::Unauthorized))
                },
            },
            RegisterStage::Issuing(i) => {
                let ir = self.issue_step(i, ev);
                match ir {
                    IssueStep::Continue(i2, c) => Step::Continue(
                        RegisterFlow {
                            req,
                            ip_address,
                            user_agent,
                                stage: RegisterStage::Issuing(i2),
                        },
                        c,
                    ),
                    IssueStep::Failed(e) => Step::Finish(Err(e)),
                    IssueStep::Issued(is) => Step::Finish(Ok(self.auth_response(is))),
                }
            },
        }
    }
}

} // verus!
