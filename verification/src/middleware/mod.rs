//! Request guards.

pub mod admin_auth;
