use vstd::prelude::*;
use crate::config::JwtSettings;
use crate::auth::service::{begin_issue_spec, lifted, AuthService, Issue, IssueStep, Issued};
use crate::crypto::{hash_token, token_hash};
use crate::errors::{AppError, ErrorSpec};
use crate::flow::{Command, Event, EventKind, Step};
use crate::ids::{parse_uuid, uuid_parse, uuid_text, uuid_to_text};
use crate::jwt::{session_key, session_key_text};
use crate::model::{Session, User};
use crate::schemas::TokenRefreshResponse;

verus! {

/// Where a token refresh stands.
#[derive(Debug, Clone)]
pub enum RefreshStage {
    /// Waiting for the refresh token to be decoded and checked.
    Decode,
    /// Waiting for the live session stored under the token's hash.
    FindSession { user_id: u128 },
    /// Waiting for the account the token names.
    FindUser { user_id: u128, session: Session },
    /// Waiting for the old session to be revoked.
    Revoke { user: User, session: Session },
    /// Waiting for the old session to leave the cache.
    Evict { user: User },
    /// Issuing the new session.
    Issuing(Issue),
}

/// A token refresh in progress.
#[derive(Debug, Clone)]
pub struct RefreshFlow {
    pub refresh_token: String,
    pub stage: RefreshStage,
}

impl RefreshFlow {
    pub open spec fn at(self, stage: RefreshStage) -> RefreshFlow {
        RefreshFlow { stage, ..self }
    }

    /// The kind of answer this refresh waits for.
    pub open spec fn awaiting(&self) -> EventKind {
        match self.stage {
            RefreshStage::Decode => EventKind::Decoded,
            RefreshStage::FindSession { .. } => EventKind::FoundSession,
            RefreshStage::FindUser { .. } => EventKind::User,
            RefreshStage::Revoke { .. } => EventKind::Written,
            RefreshStage::Evict { .. } => EventKind::Cached,
            RefreshStage::Issuing(i) => i.awaiting(),
        }
    }

    /// Whether a time handed to the session being issued gives its token a
    /// representable expiry (other answers need nothing).
    pub open spec fn clock_fits(&self, jwt: JwtSettings, ev: Event) -> bool {
        match self.stage {
            RefreshStage::Issuing(i) => i.clock_fits(jwt, ev),
            _ => true,
        }
    }
}

/// The answer that hands out the new pair of tokens.
pub open spec fn refresh_response_spec(r: TokenRefreshResponse, issued: Issued, svc: AuthService) -> bool {
    &&& r.access_token == issued.access_token
    &&& r.refresh_token == issued.refresh_token
    &&& r.expires_in == svc.jwt.access_expiration
}

/// What one step of a refresh does with the answer `ev`.
pub open spec fn refresh_step_spec(
    svc: AuthService,
    f: RefreshFlow,
    ev: Event,
    r: Step<RefreshFlow, TokenRefreshResponse>,
) -> bool {
    match f.stage {
        RefreshStage::Decode => match ev {
            Event::Decoded(Err(_)) => r matches Step::Finish(Err(e)) && e@
                == ErrorSpec::InvalidRefreshToken,
            Event::Decoded(Ok(claims)) => match uuid_parse(claims.sub@) {
                None => r matches Step::Finish(Err(e)) && e@ == ErrorSpec::InvalidRefreshToken,
                Some(user_id) => r matches Step::Continue(
                    f2,
                    Command::FindSessionByRefreshHash(hash),
                ) && f2 == f.at(RefreshStage::FindSession { user_id }) && hash@ == token_hash(
                    f.refresh_token@,
                ),
            },
            _ => false,
        },
        RefreshStage::FindSession { user_id } => match ev {
            Event::FoundSession(Err(e)) => r == Step::<RefreshFlow, TokenRefreshResponse>::Finish(Err(e)),
            Event::FoundSession(Ok(None)) => r matches Step::Finish(Err(e)) && e@
                == ErrorSpec::InvalidRefreshToken,
            Event::FoundSession(Ok(Some(session))) => r == Step::<
                RefreshFlow,
                TokenRefreshResponse,
            >::Continue(
                f.at(RefreshStage::FindUser { user_id, session }),
                Command::FindUserById(user_id),
            ),
            _ => false,
        },
        RefreshStage::FindUser { user_id, session } => match ev {
            Event::User(Err(e)) => r == Step::<RefreshFlow, TokenRefreshResponse>::Finish(Err(e)),
            Event::User(Ok(None)) => r matches Step::Finish(Err(e)) && e@
                == ErrorSpec::InvalidRefreshToken,
            Event::User(Ok(Some(user))) => r == Step::<RefreshFlow, TokenRefreshResponse>::Continue(
                f.at(RefreshStage::Revoke { user, session }),
                Command::RevokeSession(session.id),
            ),
            _ => false,
        },
        RefreshStage::Revoke { user, session } => match ev {
            Event::Written(Err(e)) => r == Step::<RefreshFlow, TokenRefreshResponse>::Finish(Err(e)),
            Event::Written(Ok(())) => r matches Step::Continue(f2, Command::EvictSession { key })
                && f2 == f.at(RefreshStage::Evict { user }) && key@ == session_key_text(
                uuid_text(session.id),
            ),
            _ => false,
        },
        RefreshStage::Evict { user } => match ev {
            Event::Cached(_) => r matches Step::Continue(f2, c) && f2.stage matches RefreshStage::Issuing(i)
                && f2 == f.at(RefreshStage::Issuing(i)) && begin_issue_spec(
                svc.jwt,
                user,
                None,
                None,
                i,
                c,
            ),
            _ => false,
        },
        RefreshStage::Issuing(i) => exists|ir: IssueStep|
            #![trigger svc.issue_step_spec_at(i, ev, ir)]
            svc.issue_step_spec_at(i, ev, ir) && lifted(
                ir,
                r,
                |i2: Issue| f.at(RefreshStage::Issuing(i2)),
                |resp: TokenRefreshResponse, is: Issued| refresh_response_spec(resp, is, svc),
            ),
    }
}

impl AuthService {
    /// Refresh both access and refresh tokens: first asks for the refresh
    /// token to be decoded and checked.
    pub fn refresh(&self, refresh_token: &str) -> (r: Step<RefreshFlow, TokenRefreshResponse>)
        ensures
            r matches Step::Continue(f, Command::DecodeRefreshToken(t)) && t@ == refresh_token@
                && f.refresh_token@ == refresh_token@ && f.stage == RefreshStage::Decode,
    {
        Step::Continue(
            RefreshFlow { refresh_token: String::from_str(refresh_token), stage: RefreshStage::Decode },
            Command::DecodeRefreshToken(String::from_str(refresh_token)),
        )
    }

    /// Takes one step of a refresh.
    pub fn refresh_step(&self, f: RefreshFlow, ev: Event) -> (r: Step<RefreshFlow, TokenRefreshResponse>)
        requires
            ev.kind_spec() == f.awaiting(),
            f.clock_fits(self.jwt, ev),
        ensures
            refresh_step_spec(*self, f, ev, r),
            r matches Step::Continue(f2, c) ==> f2.awaiting() == c.reply_kind_spec(),
            // a refresh token that names user `u` leads to the account of `u`
            f.stage is Decode ==> (ev matches Event::Decoded(Ok(claims)) ==> forall|u: u128|
                claims.sub@ == uuid_text(u) ==> (r matches Step::Continue(f2, _)
                    && f2.stage == RefreshStage::FindSession { user_id: u })),
    {
        let RefreshFlow { refresh_token, stage } = f;
        match stage {
            RefreshStage::Decode => match ev {
                Event::Decoded(Err(_)) => Step::Finish(Err(AppError::InvalidRefreshToken)),
                Event::Decoded(Ok(claims)) => match parse_uuid(claims.sub.as_str()) {
                    None => Step::Finish(Err(AppError::InvalidRefreshToken)),
                    Some(user_id) => {
                        let hash = hash_token(refresh_token.as_str());
                        Step::Continue(
                            RefreshFlow {
                                refresh_token,
                                stage: RefreshStage::FindSession { user_id },
                            },
                            Command::FindSessionByRefreshHash(hash),
                        )
                    },
                },
                _ => {
                    assert(false);
                    Step::Finish(Err(AppError::Unauthorized))
                },
            },
            RefreshStage::FindSession { user_id } => match ev {
                Event::FoundSession(Err(e)) => Step::Finish(Err(e)),
                Event::FoundSession(Ok(None)) => Step::Finish(Err(AppError::InvalidRefreshToken)),
                Event::FoundSession(Ok(Some(session))) => Step::Continue(
                    RefreshFlow {
                        refresh_token,
                        stage: RefreshStage::FindUser { user_id, session },
                    },
                    Command::FindUserById(user_id),
                ),
                _ => {
                    assert(false);
                    Step::Finish(Err(AppError::Unauthorized))
                },
            },
            RefreshStage::FindUser { user_id, session } => match ev {
                Event::User(Err(e)) => Step::Finish(Err(e)),
                Event::User(Ok(None)) => Step::Finish(Err(AppError::InvalidRefreshToken)),
                Event::User(Ok(Some(user))) => {
                    let id = session.id;
                    Step::Continue(
                        RefreshFlow { refresh_token, stage: RefreshStage::Revoke { user, session } },
                        Command::RevokeSession(id),
                    )
                },
                _ => {
                    assert(false);
                    Step::Finish(Err(AppError::Unauthorized))
                },
            },
            RefreshStage::Revoke { user, session } => match ev {
                Event::Written(Err(e)) => Step::Finish(Err(e)),
                Event::Written(Ok(())) => {
                    let id_text = uuid_to_text(session.id);
                    let key = session_key(id_text.as_str());
                    Step::Continue(
                        RefreshFlow { refresh_token, stage: RefreshStage::Evict { user } },
                        Command::EvictSession { key },
                    )
                },
                _ => {
                    assert(false);
                    Step::Finish(Err(AppError::Unauthorized))
                },
            },
            RefreshStage::Evict { user } => match ev {
                Event::Cached(_) => {
                    let (i, c) = self.begin_issue(user, None, None);
                    Step::Continue(
                        RefreshFlow { refresh_token, stage: RefreshStage::Issuing(i) },
                        c,
                    )
                },
                _ => {
                    assert(false);
                    Step::Finish(Err(AppError::Unauthorized))
                },
            },
            RefreshStage::Issuing(i) => match self.issue_step(i, ev) {
                IssueStep::Continue(i2, c) => Step::Continue(
                    RefreshFlow { refresh_token, stage: RefreshStage::Issuing(i2) },
                    c,
                ),
                IssueStep::Failed(e) => Step::Finish(Err(e)),
                IssueStep::Issued(is) => Step::Finish(
                    Ok(
                        TokenRefreshResponse {
                            access_token: is.access_token,
                            refresh_token: is.refresh_token,
                            expires_in: self.jwt.access_expiration,
                        },
                    ),
                ),
            },
        }
    }
}

} // verus!
