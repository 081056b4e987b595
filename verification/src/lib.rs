//! Authentication and user-account service logic: input validation, error
//! reporting, configuration, token claims and the request flows of the
//! auth and user endpoints, each verified against its contract.

pub mod errors;
mod text;
pub mod validation;
pub mod numbers;
pub mod ids;
pub mod crypto;
pub mod model;
pub mod schemas;
pub mod jwt;
pub mod flow;
pub mod auth;
pub mod user;
pub mod middleware;
pub mod config;
pub mod laws;
