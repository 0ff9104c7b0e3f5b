//! Session-token rules and the constants shared by the stores and flows.

pub mod auth;
pub mod constants;
