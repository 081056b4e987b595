//! The flows behind the user-account endpoints.

pub mod service;
pub mod controller;
