//! Verified core of the ChatGuru → ClickUp integration middleware.

pub mod clock;
pub mod text;
pub mod keyed;
pub mod json;
pub mod encoding;
pub mod error;
pub mod services;
pub mod models;
pub mod config;
pub mod auth;
pub mod handlers;
pub mod middleware;
