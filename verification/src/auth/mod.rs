//! OAuth2 with ClickUp: the authorization URL, token validation and the token cache.

pub mod config;
pub mod client;
pub mod token_manager;
pub mod handlers;
pub mod pages;
