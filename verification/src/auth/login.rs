use vstd::prelude::*;
use crate::config::JwtSettings;
use crate::auth::service::{auth_response_spec, begin_issue_spec, lifted, AuthService, Issue, IssueStep, Issued};
use crate::errors::{AppError, ErrorSpec};
use crate::flow::{Command, Event, EventKind, Step};
use crate::model::User;
use crate::schemas::{AuthResponse, LoginRequest};
use crate::text::{copy_opt, same_text};

verus! {

/// Where a login stands.
#[derive(Debug, Clone)]
pub enum LoginStage {
    /// Waiting for the account with the given email.
    FindUser,
    /// Waiting for the password check against `user`'s hash.
    Verify { user: User },
    /// Waiting for the last-login time of `user` to be recorded.
    Touch { user: User },
    /// Issuing a new session.
    Issuing(Issue),
}

/// A login in progress.
#[derive(Debug, Clone)]
pub struct LoginFlow {
    pub req: LoginRequest,
    pub ip_address: Option<String>,
    pub user_agent: Option<String>,
    pub stage: LoginStage,
}

impl LoginFlow {
    pub open spec fn at(self, stage: LoginStage) -> LoginFlow {
        LoginFlow { stage, ..self }
    }

    /// The kind of answer this login waits for.
    pub open spec fn awaiting(&self) -> EventKind {
        match self.stage {
            LoginStage::FindUser => EventKind::User,
            LoginStage::Verify { .. } => EventKind::PasswordCheck,
            LoginStage::Touch { .. } => EventKind::Written,
            LoginStage::Issuing(i) => i.awaiting(),
        }
    }

    /// Whether a time handed to the session being issued gives its token a
    /// representable expiry (other answers need nothing).
    pub open spec fn clock_fits(&self, jwt: JwtSettings, ev: Event) -> bool {
        match self.stage {
            LoginStage::Issuing(i) => i.clock_fits(jwt, ev),
            _ => true,
        }
    }
}

/// Whether an account is locked.
pub open spec fn is_locked(user: User) -> bool {
    user.status@ == "locked"@
}

/// What one step of a login does with the answer `ev`.
pub open spec fn login_step_spec(
    svc: AuthService,
    f: LoginFlow,
    ev: Event,
    r: Step<LoginFlow, AuthResponse>,
) -> bool {
    match f.stage {
        LoginStage::FindUser => match ev {
            Event::User(Err(e)) => r == Step::<LoginFlow, AuthResponse>::Finish(Err(e)),
            Event::User(Ok(None)) => r matches Step::Finish(Err(e)) && e@
                == ErrorSpec::InvalidCredentials,
            Event::User(Ok(Some(user))) => r matches Step::Continue(
                f2,
                Command::VerifyPassword { password, hash },
            ) && f2 == f.at(LoginStage::Verify { user }) && password@ == f.req.password@ && hash@
                == user.password_hash@,
            _ => false,
        },
        LoginStage::Verify { user } => match ev {
            Event::PasswordCheck(Err(_)) => r matches Step::Finish(Err(e)) && e@
                == ErrorSpec::InternalError("Password verification failed"@),
            Event::PasswordCheck(Ok(false)) => r matches Step::Finish(Err(e)) && e@
                == ErrorSpec::InvalidCredentials,
            Event::PasswordCheck(Ok(true)) => if is_locked(user) {
                r matches Step::Finish(Err(e)) && e@ == ErrorSpec::AccountLocked
            } else {
                r == Step::<LoginFlow, AuthResponse>::Continue(
                    f.at(LoginStage::Touch { user }),
                    Command::UpdateLastLogin(user.id),
                )
            },
            _ => false,
        },
        LoginStage::Touch { user } => match ev {
            Event::Written(Err(e)) => r == Step::<LoginFlow, AuthResponse>::Finish(Err(e)),
            Event::Written(Ok(())) => r matches Step::Continue(f2, c) && f2.stage matches LoginStage::Issuing(i)
                && f2 == f.at(LoginStage::Issuing(i)) && begin_issue_spec(
                svc.jwt,
                user,
                f.ip_address,
                f.user_agent,
                i,
                c,
            ),
            _ => false,
        },
        LoginStage::Issuing(i) => exists|ir: IssueStep|
            #![trigger svc.issue_step_spec_at(i, ev, ir)]
            svc.issue_step_spec_at(i, ev, ir) && lifted(
                ir,
                r,
                |i2: Issue| f.at(LoginStage::Issuing(i2)),
                |resp: AuthResponse, is: Issued| auth_response_spec(resp, is, svc.jwt),
            ),
    }
}

impl AuthService {
    /// Authenticate a user with email + password: first asks for the account
    /// with that email.
    pub fn login(
        &self,
        req: LoginRequest,
        ip_address: Option<String>,
        user_agent: Option<String>,
    ) -> (r: Step<LoginFlow, AuthResponse>)
        ensures
            r matches Step::Continue(f, Command::FindUserByEmail(email)) && email@ == req.email@
                && f == (LoginFlow { req, ip_address, user_agent, stage: LoginStage::FindUser }),
    {
        let email = req.email.clone();
        Step::Continue(
            LoginFlow { req, ip_address, user_agent, stage: LoginStage::FindUser },
            Command::FindUserByEmail(email),
        )
    }

    /// Takes one step of a login.
    pub fn login_step(&self, f: LoginFlow, ev: Event) -> (r: Step<LoginFlow, AuthResponse>)
        requires
            ev.kind_spec() == f.awaiting(),
            f.clock_fits(self.jwt, ev),
        ensures
            login_step_spec(*self, f, ev, r),
            r matches Step::Continue(f2, c) ==> f2.awaiting() == c.reply_kind_spec(),
    {
        let LoginFlow { req, ip_address, user_agent, stage } = f;
        match stage {
            LoginStage::FindUser => match ev {
                Event::User(Err(e)) => Step::Finish(Err(e)),
                Event::User(Ok(None)) => Step::Finish(Err(AppError::InvalidCredentials)),
                Event::User(Ok(Some(user))) => {
                    let cmd = Command::VerifyPassword {
                        password: req.password.clone(),
                        hash: user.password_hash.clone(),
                    };
                    Step::Continue(
                        LoginFlow { req, ip_address, user_agent, stage: LoginStage::Verify { user } },
                        cmd,
                    )
                },
                _ => {
                    assert(false);
                    Step::Finish(Err(AppError::Unauthorized))
                },
            },
            LoginStage::Verify { user } => match ev {
                Event::PasswordCheck(Err(_)) => Step::Finish(
                    Err(AppError::InternalError(String::from_str("Password verification failed"))),
                ),
                Event::PasswordCheck(Ok(valid)) => {
                    if !valid {
                        return Step::Finish(Err(AppError::InvalidCredentials));
                    }
                    if same_text(user.status.as_str(), "locked") {
                        return Step::Finish(Err(AppError::AccountLocked));
                    }
                    let id = user.id;
                    Step::Continue(
                        LoginFlow { req, ip_address, user_agent, stage: LoginStage::Touch { user } },
                        Command::UpdateLastLogin(id),
                    )
                },
                _ => {
                    assert(false);
                    Step::Finish(Err(AppError::Unauthorized))
                },
            },
            LoginStage::Touch { user } => match ev {
                Event::Written(Err(e)) => Step::Finish(Err(e)),
                Event::Written(Ok(())) => {
                    let (i, c) = self.begin_issue(user, copy_opt(&ip_address), copy_opt(&user_agent));
                    Step::Continue(
                        LoginFlow { req, ip_address, user_agent, stage: LoginStage::Issuing(i) },
                        c,
                    )
                },
                _ => {
                    assert(false);
                    Step::Finish(Err(AppError::Unauthorized))
                },
            },
            LoginStage::Issuing(i) => match self.issue_step(i, ev) {
                IssueStep::Continue(i2, c) => Step::Continue(
                    LoginFlow { req, ip_address, user_agent, stage: LoginStage::Issuing(i2) },
                    c,
                ),
                IssueStep::Failed(e) => Step::Finish(Err(e)),
                IssueStep::Issued(is) => Step::Finish(Ok(self.auth_response(is))),
            },
        }
    }
}

} // verus!
