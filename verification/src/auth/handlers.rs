//! The OAuth2 callback's parameters and what they lead to.

use vstd::prelude::*;
use crate::text::{owned, push_str};

verus! {

/// The query of ClickUp's OAuth2 callback.
#[derive(Debug)]
pub struct OAuthCallbackParams {
    /// The authorization code.
    pub code: Option<String>,
    /// The error ClickUp reported.
    pub error: Option<String>,
}

/// What the callback does with its parameters.
#[derive(Debug)]
pub enum CallbackStep {
    /// Show the error that ClickUp reported.
    ShowError(String),
    /// Refuse the request: it has no code.
    MissingCode,
    /// Exchange the code for a token.
    Exchange(String),
}

/// What the callback does: an error that ClickUp reported comes first, then a missing code,
/// else the code is exchanged.
pub fn callback_step(params: OAuthCallbackParams) -> (r: CallbackStep)
    ensures
        match params.error {
            Some(e) => r == CallbackStep::ShowError(e),
            None => match params.code {
                Some(c) => r == CallbackStep::Exchange(c),
                None => r == CallbackStep::MissingCode,
            },
        },
{
    match params.error {
        Some(e) => CallbackStep::ShowError(e),
        None => match params.code {
            Some(c) => CallbackStep::Exchange(c),
            None => CallbackStep::MissingCode,
        },
    }
}

/// The refusal of a callback without a code.
pub fn missing_code_message() -> (r: String)
    ensures
        r@ == "Missing code parameter"@,
{
    owned("Missing code parameter")
}

/// The error of a failed code exchange.
pub fn exchange_error(e: &str) -> (r: String)
    ensures
        r@ == "Failed to exchange code: "@ + e@,
{
    let mut s = owned("Failed to exchange code: ");
    push_str(&mut s, e);
    s
}

} // verus!
