//! Reading ClickUp's answers to token requests.

use vstd::prelude::*;
use crate::json::{json_get, json_parse, parse_json, str_at, JsonValue, JsonView};
use crate::services::prompts::opt_view;
use crate::text::{contains, owned, str_contains};

verus! {

/// ClickUp's answer to a token exchange.
#[derive(Debug)]
pub struct TokenResponse {
    pub access_token: String,
    pub token_type: String,
}

/// A workspace that the app may use.
#[derive(Debug)]
pub struct AuthorizedTeam {
    pub id: String,
    pub name: String,
}

/// ClickUp's list of authorized workspaces.
#[derive(Debug)]
pub struct AuthorizedTeamsResponse {
    pub teams: Vec<AuthorizedTeam>,
}

/// What checking a token found.
#[derive(Debug)]
pub struct TokenValidationResult {
    pub is_valid: bool,
    pub error_code: Option<String>,
    pub status_code: Option<u16>,
    pub should_invalidate_cache: bool,
    pub should_reauthorize: bool,
}

impl Default for TokenValidationResult {
    /// Invalid, with nothing known.
    fn default() -> (r: Self)
        ensures
            !r.is_valid,
            r.error_code.is_none(),
            r.status_code.is_none(),
            !r.should_invalidate_cache,
            !r.should_reauthorize,
    {
        TokenValidationResult {
            is_valid: false,
            error_code: None,
            status_code: None,
            should_invalidate_cache: false,
            should_reauthorize: false,
        }
    }
}

/// The OAuth error code in a JSON error body: `ECODE`, then `error.code`, then `err`.
pub open spec fn json_error_code(v: JsonView) -> Option<Seq<char>> {
    match str_at(v, "ECODE"@) {
        Some(c) => Some(c),
        None => match json_get(v, "error"@) {
            Some(e) => match str_at(e, "code"@) {
                Some(c) => Some(c),
                None => str_at(v, "err"@),
            },
            None => str_at(v, "err"@),
        },
    }
}

/// The first known OAuth error text that the body contains.
pub open spec fn text_error_code(body: Seq<char>) -> Option<Seq<char>> {
    if contains(body, "OAUTH_025"@) {
        Some("OAUTH_025"@)
    } else if contains(body, "OAUTH_027"@) {
        Some("OAUTH_027"@)
    } else if contains(body, "OAUTH_019"@) {
        Some("OAUTH_019"@)
    } else if contains(body, "Invalid token"@) {
        Some("Invalid token"@)
    } else if contains(body, "Token expired"@) {
        Some("Token expired"@)
    } else {
        None
    }
}

/// The OAuth error code of an error body, given what the body parses to as JSON: the code
/// in the JSON, else a known error text in the body.
pub open spec fn oauth_error_code(body: Seq<char>, parsed: Option<JsonView>) -> Option<Seq<char>> {
    match parsed {
        Some(v) => match json_error_code(v) {
            Some(c) => Some(c),
            None => text_error_code(body),
        },
        None => text_error_code(body),
    }
}

/// The string member `key` of `v`.
fn string_member(v: &JsonValue, key: &str) -> (r: Option<String>)
    ensures
        opt_view(r) == str_at(v@, key@),
{
    match v.get(key) {
        Some(x) => match x.as_str() {
            Some(s) => Some(s.clone()),
            None => None,
        },
        None => None,
    }
}

/// The first known OAuth error text that the body contains.
fn error_code_in_text(body: &str) -> (r: Option<String>)
    ensures
        opt_view(r) == text_error_code(body@),
{
    if str_contains(body, "OAUTH_025") {
        Some(owned("OAUTH_025"))
    } else if str_contains(body, "OAUTH_027") {
        Some(owned("OAUTH_027"))
    } else if str_contains(body, "OAUTH_019") {
        Some(owned("OAUTH_019"))
    } else if str_contains(body, "Invalid token") {
        Some(owned("Invalid token"))
    } else if str_contains(body, "Token expired") {
        Some(owned("Token expired"))
    } else {
        None
    }
}

/// The OAuth error code of an error body, given its JSON form when it parses.
pub fn oauth_error_code_from(body: &str, parsed: Option<&JsonValue>) -> (r: Option<String>)
    ensures
        opt_view(r) == oauth_error_code(body@, match parsed {
            Some(v) => Some(v@),
            None => None,
        }),
{
    if let Some(v) = parsed {
        if let Some(c) = string_member(v, "ECODE") {
            return Some(c);
        }
        match v.get("error") {
            Some(e) => {
                if let Some(c) = string_member(e, "code") {
                    return Some(c);
                }
            },
            None => {},
        }
        if let Some(c) = string_member(v, "err") {
            return Some(c);
        }
    }
    error_code_in_text(body)
}

/// The OAuth error code of an error body: the body is read as JSON with `serde_json` first.
pub fn extract_oauth_error_code(body: &str) -> (r: Option<String>)
    ensures
        opt_view(r) == oauth_error_code(body@, json_parse(body@)),
{
    match parse_json(body) {
        Ok(v) => oauth_error_code_from(body, Some(&v)),
        Err(_) => oauth_error_code_from(body, None),
    }
}

/// Whether an HTTP status is a success (2xx).
pub open spec fn is_success_status(status: u16) -> bool {
    200 <= status <= 299
}

/// What an answer with `status` and, for a failure, error code `code` says of a token: a
/// success is valid; `OAUTH_025` and `OAUTH_019` clear the cache and ask for a new
/// authorization; `OAUTH_027` asks for one only; any other failure does both exactly for
/// 401 and 403.
pub open spec fn validation_for(status: u16, code: Option<Seq<char>>) -> (bool, Option<Seq<char>>, bool, bool) {
    if is_success_status(status) {
        (true, None, false, false)
    } else if code == Some("OAUTH_025"@) || code == Some("OAUTH_019"@) {
        (false, code, true, true)
    } else if code == Some("OAUTH_027"@) {
        (false, code, false, true)
    } else {
        let auth = status == 401 || status == 403;
        (false, code, auth, auth)
    }
}

/// The result as (valid, error code, clear cache, reauthorize).
pub open spec fn validation_view(r: TokenValidationResult) -> (bool, Option<Seq<char>>, bool, bool) {
    (r.is_valid, opt_view(r.error_code), r.should_invalidate_cache, r.should_reauthorize)
}

/// What an answer of ClickUp's user endpoint says of a token, given its status and, for a
/// failure, its body.
pub fn validation_for_response(status_code: u16, body: &str) -> (r: TokenValidationResult)
    ensures
        r.status_code == Some(status_code),
        !is_success_status(status_code) ==> validation_view(r) == validation_for(
            status_code,
            oauth_error_code(body@, json_parse(body@)),
        ),
        is_success_status(status_code) ==> validation_view(r) == validation_for(status_code, None),
{
    if 200 <= status_code && status_code <= 299 {
        return TokenValidationResult {
            is_valid: true,
            error_code: None,
            status_code: Some(status_code),
            should_invalidate_cache: false,
            should_reauthorize: false,
        };
    }
    let code = extract_oauth_error_code(body);
    let (invalidate, reauthorize) = match &code {
        Some(c) => {
            if crate::text::str_eq(c.as_str(), "OAUTH_025") || crate::text::str_eq(c.as_str(), "OAUTH_019") {
                (true, true)
            } else if crate::text::str_eq(c.as_str(), "OAUTH_027") {
                (false, true)
            } else {
                (status_code == 401 || status_code == 403, status_code == 401 || status_code == 403)
            }
        },
        None => (status_code == 401 || status_code == 403, status_code == 401 || status_code == 403),
    };
    TokenValidationResult {
        is_valid: false,
        error_code: code,
        status_code: Some(status_code),
        should_invalidate_cache: invalidate,
        should_reauthorize: reauthorize,
    }
}

/// What a network failure says of a token: invalid with code `NETWORK_ERROR`, and nothing
/// to clear or reauthorize.
pub fn network_error_validation() -> (r: TokenValidationResult)
    ensures
        validation_view(r) == (false, Some("NETWORK_ERROR"@), false, false),
        r.status_code.is_none(),
{
    TokenValidationResult {
        is_valid: false,
        error_code: Some(owned("NETWORK_ERROR")),
        status_code: None,
        should_invalidate_cache: false,
        should_reauthorize: false,
    }
}

} // verus!
