//! The flows behind the authentication endpoints.

pub mod service;
pub mod register;
pub mod login;
pub mod refresh;
pub mod logout;
