//! The outside work that the request flows ask for, and what comes back.
//!
//! A flow is a state machine: each step takes the flow's state and the answer
//! to the last command, and gives either the next state with the next command
//! or the final result. The caller performs each command (a query of the
//! relational store, a command of the session cache, token encoding or
//! password hashing) and hands back its answer.
use vstd::prelude::*;
use crate::errors::AppError;
use crate::jwt::{Claims, TokenFailure};
use crate::model::{Session, User};

verus! {

/// A piece of outside work a flow asks for.
#[derive(Debug, Clone)]
pub enum Command {
    FindUserByEmail(String),
    FindUserByUsername(String),
    FindUserById(u128),
    CreateUser { id: u128, username: String, email: String, password_hash: String },
    UpdateLastLogin(u128),
    UpdateUsername { id: u128, username: String },
    UpdatePassword { id: u128, password_hash: String },
    DeleteUser(u128),
    ListUsers { limit: i64, offset: i64 },
    CountUsers,
    HashPassword(String),
    VerifyPassword { password: String, hash: String },
    EncodeAccessToken(Claims),
    EncodeRefreshToken(Claims),
    DecodeAccessToken(String),
    DecodeRefreshToken(String),
    CreateSession {
        id: u128,
        user_id: u128,
        refresh_token_hash: String,
        ip_address: Option<String>,
        user_agent: Option<String>,
    },
    FindSessionByRefreshHash(String),
    RevokeSession(u128),
    /// Store `access_token` under `key` for `ttl` seconds.
    CacheSession { key: String, access_token: String, ttl: u64 },
    /// Delete `key`; the answer is not looked at.
    EvictSession { key: String },
    /// Whether `key` is present.
    SessionExists { key: String },
    /// The current time, in seconds since the epoch, to stamp a token that
    /// lives `lifetime` seconds.
    ReadClock { lifetime: i64 },
}

/// How a command of the session cache failed.
#[derive(Debug, Clone, Copy, PartialEq, Eq, Structural)]
pub enum CacheFailure {
    /// No connection could be taken from the pool.
    NoConnection,
    /// The command itself failed.
    CommandFailed,
}

/// The answer to a command.
#[derive(Debug)]
pub enum Event {
    User(Result<Option<User>, AppError>),
    CreatedUser(Result<User, AppError>),
    Written(Result<(), AppError>),
    Users(Result<Vec<User>, AppError>),
    UserCount(Result<i64, AppError>),
    /// The new hash, or the hasher's error text.
    PasswordHash(Result<String, String>),
    /// Whether the password matches, or the verifier's error text.
    PasswordCheck(Result<bool, String>),
    /// The encoded token, or the encoder's error text.
    Token(Result<String, String>),
    Decoded(Result<Claims, TokenFailure>),
    CreatedSession(Result<Session, AppError>),
    FoundSession(Result<Option<Session>, AppError>),
    Cached(Result<(), CacheFailure>),
    Exists(Result<bool, CacheFailure>),
    /// The current time, in seconds since the epoch.
    Clock(i64),
}

impl Event {
    /// Whether the answer reports a failure as an application error, which
    /// the flows pass on unchanged.
    pub open spec fn carries_error(&self) -> bool {
        match self {
            Event::User(Err(_)) => true,
            Event::CreatedUser(Err(_)) => true,
            Event::Written(Err(_)) => true,
            Event::Users(Err(_)) => true,
            Event::UserCount(Err(_)) => true,
            Event::CreatedSession(Err(_)) => true,
            Event::FoundSession(Err(_)) => true,
            _ => false,
        }
    }
}

/// Which kind of answer a command gets.
#[derive(Debug, Clone, Copy, PartialEq, Eq, Structural)]
pub enum EventKind {
    User,
    CreatedUser,
    Written,
    Users,
    UserCount,
    PasswordHash,
    PasswordCheck,
    Token,
    Decoded,
    CreatedSession,
    FoundSession,
    Cached,
    Exists,
    Clock,
}

impl Command {
    pub open spec fn reply_kind_spec(&self) -> EventKind {
        match self {
            Command::FindUserByEmail(_) => EventKind::User,
            Command::FindUserByUsername(_) => EventKind::User,
            Command::FindUserById(_) => EventKind::User,
            Command::CreateUser { .. } => EventKind::CreatedUser,
            Command::UpdateLastLogin(_) => EventKind::Written,
            Command::UpdateUsername { .. } => EventKind::Written,
            Command::UpdatePassword { .. } => EventKind::Written,
            Command::DeleteUser(_) => EventKind::Written,
            Command::ListUsers { .. } => EventKind::Users,
            Command::CountUsers => EventKind::UserCount,
            Command::HashPassword(_) => EventKind::PasswordHash,
            Command::VerifyPassword { .. } => EventKind::PasswordCheck,
            Command::EncodeAccessToken(_) => EventKind::Token,
            Command::EncodeRefreshToken(_) => EventKind::Token,
            Command::DecodeAccessToken(_) => EventKind::Decoded,
            Command::DecodeRefreshToken(_) => EventKind::Decoded,
            Command::CreateSession { .. } => EventKind::CreatedSession,
            Command::FindSessionByRefreshHash(_) => EventKind::FoundSession,
            Command::RevokeSession(_) => EventKind::Written,
            Command::CacheSession { .. } => EventKind::Cached,
            Command::EvictSession { .. } => EventKind::Cached,
            Command::SessionExists { .. } => EventKind::Exists,
            Command::ReadClock { .. } => EventKind::Clock,
        }
    }

    /// The kind of answer this command gets.
    pub fn reply_kind(&self) -> (r: EventKind)
        ensures
            r == self.reply_kind_spec(),
    {
        match self {
            Command::FindUserByEmail(_) => EventKind::User,
            Command::FindUserByUsername(_) => EventKind::User,
            Command::FindUserById(_) => EventKind::User,
            Command::CreateUser { .. } => EventKind::CreatedUser,
            Command::UpdateLastLogin(_) => EventKind::Written,
            Command::UpdateUsername { .. } => EventKind::Written,
            Command::UpdatePassword { .. } => EventKind::Written,
            Command::DeleteUser(_) => EventKind::Written,
            Command::ListUsers { .. } => EventKind::Users,
            Command::CountUsers => EventKind::UserCount,
            Command::HashPassword(_) => EventKind::PasswordHash,
            Command::VerifyPassword { .. } => EventKind::PasswordCheck,
            Command::EncodeAccessToken(_) => EventKind::Token,
            Command::EncodeRefreshToken(_) => EventKind::Token,
            Command::DecodeAccessToken(_) => EventKind::Decoded,
            Command::DecodeRefreshToken(_) => EventKind::Decoded,
            Command::CreateSession { .. } => EventKind::CreatedSession,
            Command::FindSessionByRefreshHash(_) => EventKind::FoundSession,
            Command::RevokeSession(_) => EventKind::Written,
            Command::CacheSession { .. } => EventKind::Cached,
            Command::EvictSession { .. } => EventKind::Cached,
            Command::SessionExists { .. } => EventKind::Exists,
            Command::ReadClock { .. } => EventKind::Clock,
        }
    }
}

impl Event {
    pub open spec fn kind_spec(&self) -> EventKind {
        match self {
            Event::User(_) => EventKind::User,
            Event::CreatedUser(_) => EventKind::CreatedUser,
            Event::Written(_) => EventKind::Written,
            Event::Users(_) => EventKind::Users,
            Event::UserCount(_) => EventKind::UserCount,
            Event::PasswordHash(_) => EventKind::PasswordHash,
            Event::PasswordCheck(_) => EventKind::PasswordCheck,
            Event::Token(_) => EventKind::Token,
            Event::Decoded(_) => EventKind::Decoded,
            Event::CreatedSession(_) => EventKind::CreatedSession,
            Event::FoundSession(_) => EventKind::FoundSession,
            Event::Cached(_) => EventKind::Cached,
            Event::Exists(_) => EventKind::Exists,
            Event::Clock(_) => EventKind::Clock,
        }
    }

    /// The kind of this answer.
    pub fn kind(&self) -> (r: EventKind)
        ensures
            r == self.kind_spec(),
    {
        match self {
            Event::User(_) => EventKind::User,
            Event::CreatedUser(_) => EventKind::CreatedUser,
            Event::Written(_) => EventKind::Written,
            Event::Users(_) => EventKind::Users,
            Event::UserCount(_) => EventKind::UserCount,
            Event::PasswordHash(_) => EventKind::PasswordHash,
            Event::PasswordCheck(_) => EventKind::PasswordCheck,
            Event::Token(_) => EventKind::Token,
            Event::Decoded(_) => EventKind::Decoded,
            Event::CreatedSession(_) => EventKind::CreatedSession,
            Event::FoundSession(_) => EventKind::FoundSession,
            Event::Cached(_) => EventKind::Cached,
            Event::Exists(_) => EventKind::Exists,
            Event::Clock(_) => EventKind::Clock,
        }
    }
}

/// One step of a flow: go on with the next state and command, or finish.
#[derive(Debug)]
pub enum Step<S, R> {
    Continue(S, Command),
    Finish(Result<R, AppError>),
}

} // verus!
