//! The guard of the administrative endpoints: the `X-Admin-Key` header against the
//! configured `ADMIN_API_KEY`.

use vstd::prelude::*;
use crate::handlers::worker::{lemma_string_object, member, object_of_strings};
use crate::json::{JsonValue, JsonView};
use crate::text::{owned, str_eq};

verus! {

/// What the guard does with a request.
#[derive(Debug, Clone, Copy, PartialEq, Eq)]
pub enum AdminAccess {
    /// The request goes on to its handler.
    Granted,
    /// 401: the key is missing or wrong.
    Unauthorized,
    /// 503: no key is configured in production.
    Unavailable,
}

/// The decision: a configured key must be given exactly; without a configured key access is
/// allowed in development and refused in production.
pub open spec fn admin_access_spec(expected: Option<Seq<char>>, provided: Option<Seq<char>>, production: bool) -> AdminAccess {
    match expected {
        Some(e) => if provided == Some(e) { AdminAccess::Granted } else { AdminAccess::Unauthorized },
        None => if production { AdminAccess::Unavailable } else { AdminAccess::Granted },
    }
}

/// The view of an optional text.
pub open spec fn opt_text(o: Option<&str>) -> Option<Seq<char>> {
    match o {
        Some(s) => Some(s@),
        None => None,
    }
}

/// Decides on a request from the configured key, the key it gives and whether the server
/// runs in production.
pub fn admin_access(expected: Option<&str>, provided: Option<&str>, production: bool) -> (r: AdminAccess)
    ensures
        r == admin_access_spec(opt_text(expected), opt_text(provided), production),
{
    match expected {
        Some(e) => match provided {
            Some(p) => if str_eq(e, p) { AdminAccess::Granted } else { AdminAccess::Unauthorized },
            None => AdminAccess::Unauthorized,
        },
        None => if production { AdminAccess::Unavailable } else { AdminAccess::Granted },
    }
}

/// Whether `RUST_ENV` says production; an unset variable means development.
pub fn is_production(rust_env: Option<&str>) -> (r: bool)
    ensures
        r == (opt_text(rust_env) == Some("production"@)),
{
    match rust_env {
        Some(v) => str_eq(v, "production"),
        None => false,
    }
}

/// The body of the 401 answer.
pub fn unauthorized_body() -> (r: JsonValue)
    ensures
        r@ == JsonView::Object(seq![
            ("error"@, JsonView::Str("Unauthorized"@)),
            ("hint"@, JsonView::Str("Include X-Admin-Key header with valid API key"@)),
            ("message"@, JsonView::Str("Missing or invalid X-Admin-Key header"@)),
        ]),
{
    let mut m: Vec<(String, String)> = Vec::new();
    m.push(member("error", owned("Unauthorized")));
    m.push(member("hint", owned("Include X-Admin-Key header with valid API key")));
    m.push(member("message", owned("Missing or invalid X-Admin-Key header")));
    let ghost mv = m@;
    let r = object_of_strings(m);
    proof {
        lemma_string_object(mv, seq![
            ("error"@, JsonView::Str("Unauthorized"@)),
            ("hint"@, JsonView::Str("Include X-Admin-Key header with valid API key"@)),
            ("message"@, JsonView::Str("Missing or invalid X-Admin-Key header"@)),
        ]);
    }
    r
}

/// The body of the 503 answer.
pub fn service_unavailable_body() -> (r: JsonValue)
    ensures
        r@ == JsonView::Object(seq![
            ("error"@, JsonView::Str("Service Unavailable"@)),
            ("hint"@, JsonView::Str("Contact administrator to configure ADMIN_API_KEY"@)),
            ("message"@, JsonView::Str("ADMIN_API_KEY not configured on server"@)),
        ]),
{
    let mut m: Vec<(String, String)> = Vec::new();
    m.push(member("error", owned("Service Unavailable")));
    m.push(member("hint", owned("Contact administrator to configure ADMIN_API_KEY")));
    m.push(member("message", owned("ADMIN_API_KEY not configured on server")));
    let ghost mv = m@;
    let r = object_of_strings(m);
    proof {
        lemma_string_object(mv, seq![
            ("error"@, JsonView::Str("Service Unavailable"@)),
            ("hint"@, JsonView::Str("Contact administrator to configure ADMIN_API_KEY"@)),
            ("message"@, JsonView::Str("ADMIN_API_KEY not configured on server"@)),
        ]);
    }
    r
}

/// With a key configured, exactly the requests that give that key get through, whatever
/// the environment.
pub proof fn lemma_configured_key_is_required(expected: Seq<char>, provided: Option<Seq<char>>, production: bool)
    ensures
        (admin_access_spec(Some(expected), provided, production) == AdminAccess::Granted) <==> provided == Some(expected),
{
}

/// In production no request gets through without a configured key.
pub proof fn lemma_production_needs_a_key(provided: Option<Seq<char>>)
    ensures
        admin_access_spec(None, provided, true) == AdminAccess::Unavailable,
{
}

} // verus!
