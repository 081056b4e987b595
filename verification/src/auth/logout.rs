use vstd::prelude::*;
use crate::auth::service::AuthService;
use crate::crypto::{hash_token, token_hash};
use crate::errors::AppError;
use crate::flow::{Command, Event, EventKind, Step};
use crate::ids::{uuid_text, uuid_to_text};
use crate::jwt::{session_key, session_key_text};
use crate::model::Session;
use crate::schemas::MessageResponse;

verus! {

/// Where a logout stands.
#[derive(Debug, Clone)]
pub enum LogoutStage {
    /// Waiting for the live session stored under the token's hash.
    Find,
    /// Waiting for `session` to be revoked.
    Revoke { session: Session },
    /// Waiting for the session to leave the cache.
    Evict,
}

/// A logout in progress.
#[derive(Debug, Clone)]
pub struct LogoutFlow {
    pub stage: LogoutStage,
}

impl LogoutFlow {
    /// The kind of answer this logout waits for.
    pub open spec fn awaiting(&self) -> EventKind {
        match self.stage {
            LogoutStage::Find => EventKind::FoundSession,
            LogoutStage::Revoke { .. } => EventKind::Written,
            LogoutStage::Evict => EventKind::Cached,
        }
    }
}

/// The answer to a logout.
pub open spec fn logged_out(r: MessageResponse) -> bool {
    r.status@ == "success"@ && r.message@ == "Logged out successfully"@
}

/// What one step of a logout does with the answer `ev`.
pub open spec fn logout_step_spec(f: LogoutFlow, ev: Event, r: Step<LogoutFlow, MessageResponse>) -> bool {
    match f.stage {
        LogoutStage::Find => match ev {
            Event::FoundSession(Err(e)) => r == Step::<LogoutFlow, MessageResponse>::Finish(Err(e)),
            Event::FoundSession(Ok(None)) => r matches Step::Finish(Ok(m)) && logged_out(m),
            Event::FoundSession(Ok(Some(session))) => r == Step::<LogoutFlow, MessageResponse>::Continue(
                LogoutFlow { stage: LogoutStage::Revoke { session } },
                Command::RevokeSession(session.id),
            ),
            _ => false,
        },
        LogoutStage::Revoke { session } => match ev {
            Event::Written(Err(e)) => r == Step::<LogoutFlow, MessageResponse>::Finish(Err(e)),
            Event::Written(Ok(())) => r matches Step::Continue(f2, Command::EvictSession { key })
                && f2.stage == LogoutStage::Evict && key@ == session_key_text(uuid_text(session.id)),
            _ => false,
        },
        LogoutStage::Evict => match ev {
            Event::Cached(_) => r matches Step::Finish(Ok(m)) && logged_out(m),
            _ => false,
        },
    }
}

fn logged_out_message() -> (r: MessageResponse)
    ensures
        logged_out(r),
{
    MessageResponse {
        status: String::from_str("success"),
        message: String::from_str("Logged out successfully"),
    }
}

impl AuthService {
    /// Logout by revoking the session: first asks for the live session
    /// stored under the token's hash.
    pub fn logout(&self, refresh_token: &str) -> (r: Step<LogoutFlow, MessageResponse>)
        ensures
            r matches Step::Continue(f, Command::FindSessionByRefreshHash(hash)) && f.stage
                == LogoutStage::Find && hash@ == token_hash(refresh_token@),
    {
        Step::Continue(
            LogoutFlow { stage: LogoutStage::Find },
            Command::FindSessionByRefreshHash(hash_token(refresh_token)),
        )
    }

    /// Takes one step of a logout.
    pub fn logout_step(&self, f: LogoutFlow, ev: Event) -> (r: Step<LogoutFlow, MessageResponse>)
        requires
            ev.kind_spec() == f.awaiting(),
        ensures
            logout_step_spec(f, ev, r),
            r matches Step::Continue(f2, c) ==> f2.awaiting() == c.reply_kind_spec(),
    {
        match f.stage {
            LogoutStage::Find => match ev {
                Event::FoundSession(Err(e)) => Step::Finish(Err(e)),
                Event::FoundSession(Ok(None)) => Step::Finish(Ok(logged_out_message())),
                Event::FoundSession(Ok(Some(session))) => {
                    let id = session.id;
                    Step::Continue(
                        LogoutFlow { stage: LogoutStage::Revoke { session } },
                        Command::RevokeSession(id),
                    )
                },
                _ => {
                    assert(false);
                    Step::Finish(Err(AppError::Unauthorized))
                },
            },
            LogoutStage::Revoke { session } => match ev {
                Event::Written(Err(e)) => Step::Finish(Err(e)),
                Event::Written(Ok(())) => {
                    let id_text = uuid_to_text(session.id);
                    Step::Continue(
                        LogoutFlow { stage: LogoutStage::Evict },
                        Command::EvictSession { key: session_key(id_text.as_str()) },
                    )
                },
                _ => {
                    assert(false);
                    Step::Finish(Err(AppError::Unauthorized))
                },
            },
            LogoutStage::Evict => match ev {
                Event::Cached(_) => Step::Finish(Ok(logged_out_message())),
                _ => {
                    assert(false);
                    Step::Finish(Err(AppError::Unauthorized))
                },
            },
        }
    }
}

} // verus!
