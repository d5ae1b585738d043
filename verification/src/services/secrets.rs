//! Where secrets come from: Secret Manager first, then the environment, then defaults.
//!
//! Reading Secret Manager and the environment happens around these decisions; a secret that
//! could not be read or decoded counts as absent.

use vstd::prelude::*;
use crate::text::{owned, push_str, str_is_empty, str_trim, trim};

verus! {

/// The project used when the environment names none.
pub open spec fn default_project_id() -> Seq<char> {
    "buzzlightear"@
}

/// The first present value.
pub open spec fn first_present(a: Option<Seq<char>>, b: Option<Seq<char>>) -> Option<Seq<char>> {
    match a {
        Some(x) => Some(x),
        None => b,
    }
}

/// The view of an optional string.
pub open spec fn opt_string(o: Option<String>) -> Option<Seq<char>> {
    match o {
        Some(s) => Some(s@),
        None => None,
    }
}

/// The view of an optional text.
pub open spec fn opt_str(o: Option<&str>) -> Option<Seq<char>> {
    match o {
        Some(s) => Some(s@),
        None => None,
    }
}

/// The project: `GCP_PROJECT_ID`, else `GOOGLE_CLOUD_PROJECT`, else the default project.
pub fn project_id_from(gcp_project_id: Option<&str>, google_cloud_project: Option<&str>) -> (r: String)
    ensures
        r@ == match first_present(opt_str(gcp_project_id), opt_str(google_cloud_project)) {
            Some(p) => p,
            None => default_project_id(),
        },
{
    match gcp_project_id {
        Some(p) => owned(p),
        None => match google_cloud_project {
            Some(p) => owned(p),
            None => owned("buzzlightear"),
        },
    }
}

/// The resource name of the latest version of a secret.
pub open spec fn secret_path_spec(project_id: Seq<char>, secret: Seq<char>) -> Seq<char> {
    "projects/"@ + project_id + "/secrets/"@ + secret + "/versions/latest"@
}

/// The resource name of the latest version of a secret.
pub fn secret_path(project_id: &str, secret: &str) -> (r: String)
    ensures
        r@ == secret_path_spec(project_id@, secret@),
{
    let mut s = owned("projects/");
    push_str(&mut s, project_id);
    push_str(&mut s, "/secrets/");
    push_str(&mut s, secret);
    push_str(&mut s, "/versions/latest");
    s
}

/// The message when no ClickUp token is found.
pub open spec fn missing_clickup_token_message() -> Seq<char> {
    "clickup_api_token não encontrado no Secret Manager (OAuth2 ou Personal) nem no ambiente"@
}

/// The ClickUp token: the OAuth2 secret (`clickup-oauth-token`), else the personal token
/// secret (`clickup-api-token`), else the `clickup_api_token` variable.
pub fn clickup_token_from(oauth_secret: Option<String>, personal_secret: Option<String>, env_token: Option<String>) -> (r: Result<String, String>)
    ensures
        match first_present(opt_string(oauth_secret), first_present(opt_string(personal_secret), opt_string(env_token))) {
            Some(t) => r matches Ok(x) && x@ == t,
            None => r matches Err(m) && m@ == missing_clickup_token_message(),
        },
{
    match oauth_secret {
        Some(t) => Ok(t),
        None => match personal_secret {
            Some(t) => Ok(t),
            None => match env_token {
                Some(t) => Ok(t),
                None => Err(owned("clickup_api_token não encontrado no Secret Manager (OAuth2 ou Personal) nem no ambiente")),
            },
        },
    }
}

/// The message when no OpenAI key is found.
pub open spec fn missing_openai_key_message() -> Seq<char> {
    "OPENAI_API_KEY não encontrado no Secret Manager nem no ambiente"@
}

/// The OpenAI key: the `openai-api-key` secret, else the `OPENAI_API_KEY` variable.
pub fn openai_key_from(secret: Option<String>, env_key: Option<String>) -> (r: Result<String, String>)
    ensures
        match first_present(opt_string(secret), opt_string(env_key)) {
            Some(k) => r matches Ok(x) && x@ == k,
            None => r matches Err(m) && m@ == missing_openai_key_message(),
        },
{
    match secret {
        Some(k) => Ok(k),
        None => match env_key {
            Some(k) => Ok(k),
            None => Err(owned("OPENAI_API_KEY não encontrado no Secret Manager nem no ambiente")),
        },
    }
}

/// A value that counts: present and not blank.
pub open spec fn usable(o: Option<Seq<char>>) -> bool {
    o matches Some(v) && trim(v).len() > 0
}

/// The list id: the `clickup-list-id` secret, else `CLICKUP_LIST_ID`, each only when not
/// blank, else the configured default.
pub open spec fn list_id_spec(secret: Option<Seq<char>>, env_list_id: Option<Seq<char>>, default: Seq<char>) -> Seq<char> {
    if usable(secret) {
        secret.unwrap()
    } else if usable(env_list_id) {
        env_list_id.unwrap()
    } else {
        default
    }
}

/// Whether a value is present and not blank.
fn is_usable(o: &Option<String>) -> (r: bool)
    ensures
        r == usable(opt_string(*o)),
{
    match o {
        Some(v) => {
            let t = str_trim(v.as_str());
            !str_is_empty(t.as_str())
        },
        None => false,
    }
}

/// The list id, from the secret, the environment or the default, in that order.
pub fn list_id_from(secret: Option<String>, env_list_id: Option<String>, default: &str) -> (r: String)
    ensures
        r@ == list_id_spec(opt_string(secret), opt_string(env_list_id), default@),
{
    if is_usable(&secret) {
        match secret {
            Some(v) => v,
            None => owned(default),
        }
    } else if is_usable(&env_list_id) {
        match env_list_id {
            Some(v) => v,
            None => owned(default),
        }
    } else {
        owned(default)
    }
}

/// A secret read from Secret Manager wins over the environment and the default.
pub proof fn lemma_secret_wins(secret: Seq<char>, env_list_id: Option<Seq<char>>, default: Seq<char>)
    requires
        trim(secret).len() > 0,
    ensures
        list_id_spec(Some(secret), env_list_id, default) == secret,
{
}

/// Without a usable secret or variable, the default is used.
pub proof fn lemma_default_last(secret: Option<Seq<char>>, env_list_id: Option<Seq<char>>, default: Seq<char>)
    requires
        !usable(secret),
        !usable(env_list_id),
    ensures
        list_id_spec(secret, env_list_id, default) == default,
{
}

} // verus!
