//! The flows behind the authentication endpoints: register, login, refresh
//! and logout, and the issuing of a new session with its pair of tokens.
use vstd::prelude::*;
use crate::config::JwtSettings;
use crate::crypto::{hash_token, token_hash};
use crate::errors::{AppError, ErrorSpec};
use crate::flow::{CacheFailure, Command, Event, EventKind, Step};
use crate::ids::{is_random_v4, new_random_id, uuid_text, uuid_to_text};
use crate::jwt::{
    access_claims,
    access_claims_spec,
    expiry_representable,
    refresh_claims,
    refresh_claims_spec,
    session_key,
    session_key_text,
};
use crate::model::{Session, User};
use crate::text::copy_opt;
use crate::schemas::{AuthData, AuthResponse, UserResponse};

verus! {

/// The service behind the authentication endpoints, with the token settings
/// of the configuration.
#[derive(Debug, Clone)]
pub struct AuthService {
    pub jwt: JwtSettings,
}

/// Where the issuing of a new session stands.
#[derive(Debug, Clone)]
pub enum IssueStage {
    /// Waiting for the time that stamps the access token.
    AccessClock,
    /// Waiting for the access token to be encoded.
    Access,
    /// Waiting for the time that stamps the refresh token.
    RefreshClock { access_token: String },
    /// Waiting for the refresh token to be encoded.
    Refresh { access_token: String },
    /// Waiting for the session to be stored.
    Store { access_token: String, refresh_token: String },
    /// Waiting for the session to be marked live in the cache.
    Cache { session: Session, access_token: String, refresh_token: String },
}

/// The issuing of a new session for `user`: its identifier is drawn at the
/// start, and each token is stamped with the time read just before it is
/// encoded.
#[derive(Debug, Clone)]
pub struct Issue {
    pub user: User,
    pub session_id: u128,
    pub ip_address: Option<String>,
    pub user_agent: Option<String>,
    pub stage: IssueStage,
}

/// A session that was stored and marked live, with its user and tokens.
#[derive(Debug, Clone)]
pub struct Issued {
    pub user: User,
    pub session: Session,
    pub access_token: String,
    pub refresh_token: String,
}

/// One step of issuing a session.
#[derive(Debug)]
pub enum IssueStep {
    Continue(Issue, Command),
    Failed(AppError),
    Issued(Issued),
}

impl Issue {
    /// The kind of answer this stage waits for.
    pub open spec fn awaiting(&self) -> EventKind {
        match self.stage {
            IssueStage::AccessClock => EventKind::Clock,
            IssueStage::Access => EventKind::Token,
            IssueStage::RefreshClock { .. } => EventKind::Clock,
            IssueStage::Refresh { .. } => EventKind::Token,
            IssueStage::Store { .. } => EventKind::CreatedSession,
            IssueStage::Cache { .. } => EventKind::Cached,
        }
    }

    /// The same issuing, moved to `stage`.
    pub open spec fn at(self, stage: IssueStage) -> Issue {
        Issue { stage, ..self }
    }

    /// Whether a time handed to this stage stamps its token with an expiry
    /// the clock library can represent (other answers need nothing).
    pub open spec fn clock_fits(&self, jwt: JwtSettings, ev: Event) -> bool {
        match ev {
            Event::Clock(t) => match self.stage {
                IssueStage::AccessClock => expiry_representable(t, jwt.access_expiration),
                IssueStage::RefreshClock { .. } => expiry_representable(t, jwt.refresh_expiration),
                _ => true,
            },
            _ => true,
        }
    }
}

/// What one step of issuing a session does with the answer `ev`.
pub open spec fn issue_step_spec(jwt: JwtSettings, st: Issue, ev: Event, r: IssueStep) -> bool {
    match st.stage {
        IssueStage::AccessClock => match ev {
            Event::Clock(t) => r matches IssueStep::Continue(s2, Command::EncodeAccessToken(c)) && s2
                == st.at(IssueStage::Access) && access_claims_spec(
                c,
                st.user.id,
                st.user.email@,
                st.session_id,
                st.user.role@,
                t,
                jwt,
            ),
            _ => false,
        },
        IssueStage::Access => match ev {
            Event::Token(Err(m)) => r matches IssueStep::Failed(e) && e@ == ErrorSpec::InternalError(
                "Token creation failed: "@ + m@,
            ),
            Event::Token(Ok(t)) => r == IssueStep::Continue(
                st.at(IssueStage::RefreshClock { access_token: t }),
                Command::ReadClock { lifetime: jwt.refresh_expiration },
            ),
            _ => false,
        },
        IssueStage::RefreshClock { access_token } => match ev {
            Event::Clock(t) => r matches IssueStep::Continue(s2, Command::EncodeRefreshToken(c)) && s2
                == st.at(IssueStage::Refresh { access_token }) && refresh_claims_spec(
                c,
                st.user.id,
                st.session_id,
                t,
                jwt,
            ),
            _ => false,
        },
        IssueStage::Refresh { access_token } => match ev {
            Event::Token(Err(m)) => r matches IssueStep::Failed(e) && e@ == ErrorSpec::InternalError(
                "Refresh token creation failed: "@ + m@,
            ),
            Event::Token(Ok(t)) => r matches IssueStep::Continue(
                s2,
                Command::CreateSession { id, user_id, refresh_token_hash, ip_address, user_agent },
            ) && s2 == st.at(IssueStage::Store { access_token, refresh_token: t }) && id
                == st.session_id && user_id == st.user.id && refresh_token_hash@ == token_hash(t@)
                && ip_address == st.ip_address && user_agent == st.user_agent,
            _ => false,
        },
        IssueStage::Store { access_token, refresh_token } => match ev {
            Event::CreatedSession(Err(e)) => r == IssueStep::Failed(e),
            Event::CreatedSession(Ok(session)) => r matches IssueStep::Continue(
                s2,
                Command::CacheSession { key, access_token: value, ttl },
            ) && s2 == st.at(IssueStage::Cache { session, access_token, refresh_token }) && key@
                == session_key_text(uuid_text(session.id)) && value@ == access_token@ && ttl
                == jwt.access_expiration as u64,
            _ => false,
        },
        IssueStage::Cache { session, access_token, refresh_token } => match ev {
            Event::Cached(Ok(())) => r == IssueStep::Issued(
                Issued { user: st.user, session, access_token, refresh_token },
            ),
            Event::Cached(Err(CacheFailure::NoConnection)) => r matches IssueStep::Failed(e) && e@
                == ErrorSpec::InternalError("Redis connection failed"@),
            Event::Cached(Err(CacheFailure::CommandFailed)) => r matches IssueStep::Failed(e) && e@
                == ErrorSpec::InternalError("Redis cache set failed"@),
            _ => false,
        },
    }
}

/// How a flow that embeds the issuing of a session follows one of its steps:
/// it goes on in the state `next` builds, fails with the same error, or
/// finishes with an answer that `done` accepts for the issued session.
pub open spec fn lifted<F, R>(
    ir: IssueStep,
    r: Step<F, R>,
    next: spec_fn(Issue) -> F,
    done: spec_fn(R, Issued) -> bool,
) -> bool {
    match ir {
        IssueStep::Continue(i2, c) => r == Step::<F, R>::Continue(next(i2), c),
        IssueStep::Failed(e) => r == Step::<F, R>::Finish(Err(e)),
        IssueStep::Issued(is) => r matches Step::Finish(Ok(resp)) && done(resp, is),
    }
}

/// What `begin_issue` gives: an issuing for `user` under a fresh random
/// session identifier, waiting for the time that stamps its access token,
/// and the command that reads it.
pub open spec fn begin_issue_spec(
    jwt: JwtSettings,
    user: User,
    ip_address: Option<String>,
    user_agent: Option<String>,
    i: Issue,
    c: Command,
) -> bool {
    &&& i.user == user
    &&& i.ip_address == ip_address
    &&& i.user_agent == user_agent
    &&& i.stage == IssueStage::AccessClock
    &&& is_random_v4(i.session_id)
    &&& c == Command::ReadClock { lifetime: jwt.access_expiration }
}

/// The answer that reports a new session to the client.
pub open spec fn auth_response_spec(r: AuthResponse, issued: Issued, jwt: JwtSettings) -> bool {
    let user = issued.user;
    &&& r.status@ == "success"@
    &&& r.data.user.id == user.id
    &&& r.data.user.username@ == user.username@
    &&& r.data.user.email@ == user.email@
    &&& r.data.user.role@ == user.role@
    &&& r.data.user.email_verified == user.email_verified
    &&& r.data.access_token == issued.access_token
    &&& r.data.refresh_token == issued.refresh_token
    &&& r.data.expires_in == jwt.access_expiration
}

impl AuthService {
    pub fn new(jwt: JwtSettings) -> (r: AuthService)
        ensures
            r.jwt == jwt,
    {
        AuthService { jwt }
    }

    /// What one step of issuing a session does, with this service's settings.
    pub open spec fn issue_step_spec_at(&self, st: Issue, ev: Event, r: IssueStep) -> bool {
        issue_step_spec(self.jwt, st, ev, r)
    }

    /// Starts issuing a new session for `user`: draws its identifier and asks
    /// for the time that stamps the access token.
    pub fn begin_issue(
        &self,
        user: User,
        ip_address: Option<String>,
        user_agent: Option<String>,
    ) -> (r: (Issue, Command))
        ensures
            begin_issue_spec(self.jwt, user, ip_address, user_agent, r.0, r.1),
    {
        let session_id = new_random_id();
        let issue = Issue { user, session_id, ip_address, user_agent, stage: IssueStage::AccessClock };
        (issue, Command::ReadClock { lifetime: self.jwt.access_expiration })
    }

    /// Takes one step of issuing a session.
    pub fn issue_step(&self, st: Issue, ev: Event) -> (r: IssueStep)
        requires
            ev.kind_spec() == st.awaiting(),
            st.clock_fits(self.jwt, ev),
        ensures
            self.issue_step_spec_at(st, ev, r),
            r matches IssueStep::Continue(s2, c) ==> s2.awaiting() == c.reply_kind_spec(),
    {
        let Issue { user, session_id, ip_address, user_agent, stage } = st;
        match stage {
            IssueStage::AccessClock => match ev {
                Event::Clock(now) => {
                    let claims = access_claims(
                        user.id,
                        user.email.as_str(),
                        session_id,
                        user.role.as_str(),
                        now,
                        &self.jwt,
                    );
                    let s2 = Issue { user, session_id, ip_address, user_agent, stage: IssueStage::Access };
                    IssueStep::Continue(s2, Command::EncodeAccessToken(claims))
                },
                _ => {
                    assert(false);
                    IssueStep::Failed(AppError::Unauthorized)
                },
            },
            IssueStage::Access => match ev {
                Event::Token(Err(m)) => IssueStep::Failed(
                    AppError::InternalError(
                        String::from_str("Token creation failed: ").concat(m.as_str()),
                    ),
                ),
                Event::Token(Ok(t)) => {
                    let s2 = Issue {
                        user,
                        session_id,
                        ip_address,
                        user_agent,
                        stage: IssueStage::RefreshClock { access_token: t },
                    };
                    IssueStep::Continue(s2, Command::ReadClock { lifetime: self.jwt.refresh_expiration })
                },
                _ => {
                    assert(false);
                    IssueStep::Failed(AppError::Unauthorized)
                },
            },
            IssueStage::RefreshClock { access_token } => match ev {
                Event::Clock(now) => {
                    let claims = refresh_claims(user.id, session_id, now, &self.jwt);
                    let s2 = Issue {
                        user,
                        session_id,
                        ip_address,
                        user_agent,
                        stage: IssueStage::Refresh { access_token },
                    };
                    IssueStep::Continue(s2, Command::EncodeRefreshToken(claims))
                },
                _ => {
                    assert(false);
                    IssueStep::Failed(AppError::Unauthorized)
                },
            },
            IssueStage::Refresh { access_token } => match ev {
                Event::Token(Err(m)) => IssueStep::Failed(
                    AppError::InternalError(
                        String::from_str("Refresh token creation failed: ").concat(m.as_str()),
                    ),
                ),
                Event::Token(Ok(t)) => {
                    let hash = hash_token(t.as_str());
                    let cmd = Command::CreateSession {
                        id: session_id,
                        user_id: user.id,
                        refresh_token_hash: hash,
                        ip_address: copy_opt(&ip_address),
                        user_agent: copy_opt(&user_agent),
                    };
                    let s2 = Issue {
                        user,
                        session_id,
                        ip_address,
                        user_agent,
                        stage: IssueStage::Store { access_token, refresh_token: t },
                    };
                    IssueStep::Continue(s2, cmd)
                },
                _ => {
                    assert(false);
                    IssueStep::Failed(AppError::Unauthorized)
                },
            },
            IssueStage::Store { access_token, refresh_token } => match ev {
                Event::CreatedSession(Err(e)) => IssueStep::Failed(e),
                Event::CreatedSession(Ok(session)) => {
                    let id_text = uuid_to_text(session.id);
                    let key = session_key(id_text.as_str());
                    let ttl = ttl_seconds(self.jwt.access_expiration);
                    let cmd = Command::CacheSession {
                        key,
                        access_token: access_token.clone(),
                        ttl,
                    };
                    let s2 = Issue {
                        user,
                        session_id,
                        ip_address,
                        user_agent,
                        stage: IssueStage::Cache { session, access_token, refresh_token },
                    };
                    IssueStep::Continue(s2, cmd)
                },
                _ => {
                    assert(false);
                    IssueStep::Failed(AppError::Unauthorized)
                },
            },
            IssueStage::Cache { session, access_token, refresh_token } => match ev {
                Event::Cached(Ok(())) => IssueStep::Issued(
                    Issued { user, session, access_token, refresh_token },
                ),
                Event::Cached(Err(CacheFailure::NoConnection)) => IssueStep::Failed(
                    AppError::InternalError(String::from_str("Redis connection failed")),
                ),
                Event::Cached(Err(CacheFailure::CommandFailed)) => IssueStep::Failed(
                    AppError::InternalError(String::from_str("Redis cache set failed")),
                ),
                _ => {
                    assert(false);
                    IssueStep::Failed(AppError::Unauthorized)
                },
            },
        }
    }

    /// The public view of a user.
    pub fn map_user(user: &User) -> (r: UserResponse)
        ensures
            r.id == user.id,
            r.username@ == user.username@,
            r.email@ == user.email@,
            r.role@ == user.role@,
            r.email_verified == user.email_verified,
    {
        UserResponse {
            id: user.id,
            username: user.username.clone(),
            email: user.email.clone(),
            role: user.role.clone(),
            email_verified: user.email_verified,
        }
    }

    /// The answer that reports a new session to the client.
    pub fn auth_response(&self, issued: Issued) -> (r: AuthResponse)
        ensures
            auth_response_spec(r, issued, self.jwt),
    {
        AuthResponse {
            status: String::from_str("success"),
            data: AuthData {
                user: Self::map_user(&issued.user),
                access_token: issued.access_token,
                refresh_token: issued.refresh_token,
                expires_in: self.jwt.access_expiration,
            },
        }
    }
}

/// The lifetime of a cache entry, from the access token's lifetime.
#[verifier::truncate]
fn ttl_seconds(lifetime: i64) -> (r: u64)
    ensures
        r == lifetime as u64,
{
    lifetime as u64
}

} // verus!
