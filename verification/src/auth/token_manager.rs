//! The in-memory token cache and the messages for refused tokens.

use vstd::prelude::*;
use crate::clock::now_millis;
use crate::text::str_eq;

verus! {

/// A validated token kept for a while.
#[derive(Debug, Clone)]
pub struct TokenCache {
    pub token: Option<String>,
    /// When the token was validated, in milliseconds.
    pub validated_at: Option<u64>,
    /// How long a validated token is trusted, in seconds.
    pub ttl_seconds: u64,
}

/// Milliseconds from `then` to `now`, zero when the clock went back.
pub open spec fn elapsed_ms(now: u64, then: u64) -> int {
    if now >= then {
        now - then
    } else {
        0
    }
}

/// Whether the cache holds a token validated less than its time to live ago, at `now`.
pub open spec fn cache_valid(c: TokenCache, now: u64) -> bool {
    match (c.token, c.validated_at) {
        (Some(_), Some(t)) => elapsed_ms(now, t) < c.ttl_seconds * 1000,
        _ => false,
    }
}

impl TokenCache {
    /// An empty cache that trusts a token for `ttl_seconds`.
    pub fn new(ttl_seconds: u64) -> (r: Self)
        ensures
            r.token.is_none(),
            r.validated_at.is_none(),
            r.ttl_seconds == ttl_seconds,
    {
        TokenCache { token: None, validated_at: None, ttl_seconds }
    }

    /// Whether the cache holds a token that is still trusted at `now` (milliseconds).
    pub fn is_valid_at(&self, now: u64) -> (r: bool)
        ensures
            r == cache_valid(*self, now),
    {
        match (&self.token, self.validated_at) {
            (Some(_), Some(t)) => {
                let elapsed: u128 = if now >= t {
                    (now - t) as u128
                } else {
                    0
                };
                elapsed < self.ttl_seconds as u128 * 1000
            },
            _ => false,
        }
    }

    /// Whether the cache holds a token that is still trusted now.
    pub fn is_valid(&self) -> (r: bool)
        ensures
            r ==> self.token.is_some(),
            exists|now: u64| r == cache_valid(*self, now),
    {
        self.is_valid_at(now_millis())
    }

    /// Keeps a token validated at `now` (milliseconds).
    pub fn set_at(&mut self, token: String, now: u64)
        ensures
            final(self).token == Some(token),
            final(self).validated_at == Some(now),
            final(self).ttl_seconds == old(self).ttl_seconds,
    {
        self.token = Some(token);
        self.validated_at = Some(now);
    }

    /// Keeps a token validated now.
    pub fn set(&mut self, token: String)
        ensures
            final(self).token == Some(token),
            final(self).validated_at.is_some(),
            final(self).ttl_seconds == old(self).ttl_seconds,
    {
        self.set_at(token, now_millis());
    }

    /// Forgets the token.
    pub fn clear(&mut self)
        ensures
            final(self).token.is_none(),
            final(self).validated_at.is_none(),
            final(self).ttl_seconds == old(self).ttl_seconds,
    {
        self.token = None;
        self.validated_at = None;
    }
}

/// A token kept at `now` is trusted exactly until its time to live has passed.
pub proof fn lemma_set_token_trusted_for_ttl(c: TokenCache, token: String, now: u64, later: u64)
    requires
        now <= later,
    ensures
        cache_valid(TokenCache { token: Some(token), validated_at: Some(now), ..c }, later)
            == (later - now < c.ttl_seconds * 1000),
{
}

/// A cleared cache trusts nothing.
pub proof fn lemma_cleared_cache_invalid(c: TokenCache, now: u64)
    ensures
        !cache_valid(TokenCache { token: None, validated_at: None, ..c }, now),
{
}

/// The message for a token that failed validation when it was needed, by error code.
pub open spec fn refused_token_message(code: Option<Seq<char>>) -> Seq<char> {
    if code == Some("OAUTH_025"@) {
        "OAuth2 token expirado. Execute /auth/clickup para renovar a autorização."@
    } else if code == Some("OAUTH_027"@) {
        "Team não autorizado no ClickUp. Verifique as permissões do workspace."@
    } else if code == Some("OAUTH_019"@) {
        "Erro de autorização no ClickUp. Execute /auth/clickup para re-autorizar."@
    } else if code == Some("NETWORK_ERROR"@) {
        "Erro de conectividade. Tente novamente em alguns momentos."@
    } else {
        "OAuth2 token inválido ou expirado. Execute /auth/clickup para re-autorizar."@
    }
}

/// The message for a token that failed validation when it was needed, by error code.
pub fn refused_token_error(code: Option<&str>) -> (r: &'static str)
    ensures
        r@ == refused_token_message(match code {
            Some(c) => Some(c@),
            None => None,
        }),
{
    match code {
        Some(c) => {
            if str_eq(c, "OAUTH_025") {
                "OAuth2 token expirado. Execute /auth/clickup para renovar a autorização."
            } else if str_eq(c, "OAUTH_027") {
                "Team não autorizado no ClickUp. Verifique as permissões do workspace."
            } else if str_eq(c, "OAUTH_019") {
                "Erro de autorização no ClickUp. Execute /auth/clickup para re-autorizar."
            } else if str_eq(c, "NETWORK_ERROR") {
                "Erro de conectividade. Tente novamente em alguns momentos."
            } else {
                "OAuth2 token inválido ou expirado. Execute /auth/clickup para re-autorizar."
            }
        },
        None => "OAuth2 token inválido ou expirado. Execute /auth/clickup para re-autorizar.",
    }
}

/// The message for a token that failed validation when it was to be saved, by error code.
pub open spec fn unsaved_token_message(code: Option<Seq<char>>) -> Seq<char> {
    if code == Some("OAUTH_025"@) {
        "Token expirado ou inválido"@
    } else if code == Some("OAUTH_027"@) {
        "Team não autorizado para este token"@
    } else if code == Some("OAUTH_019"@) {
        "Erro de autorização OAuth"@
    } else if code == Some("NETWORK_ERROR"@) {
        "Erro de conectividade ao validar token"@
    } else {
        "Token fornecido é inválido"@
    }
}

/// The message for a token that failed validation when it was to be saved, by error code.
pub fn unsaved_token_error(code: Option<&str>) -> (r: &'static str)
    ensures
        r@ == unsaved_token_message(match code {
            Some(c) => Some(c@),
            None => None,
        }),
{
    match code {
        Some(c) => {
            if str_eq(c, "OAUTH_025") {
                "Token expirado ou inválido"
            } else if str_eq(c, "OAUTH_027") {
                "Team não autorizado para este token"
            } else if str_eq(c, "OAUTH_019") {
                "Erro de autorização OAuth"
            } else if str_eq(c, "NETWORK_ERROR") {
                "Erro de conectividade ao validar token"
            } else {
                "Token fornecido é inválido"
            }
        },
        None => "Token fornecido é inválido",
    }
}

} // verus!
