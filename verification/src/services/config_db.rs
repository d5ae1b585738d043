//! Settings read from the database, with an in-memory cache.

use vstd::prelude::*;
use crate::keyed::{insert_spec, lemma_lookup_inserted, lookup, map_insert, map_position};
use crate::text::{lowercase, owned, str_eq, to_lowercase};

verus! {

/// Setting values with the second at which each was read.
#[derive(Debug)]
pub struct ConfigCache {
    pub values: Vec<(String, (String, u64))>,
    /// How long a value is trusted, in seconds.
    pub ttl_seconds: u64,
}

impl ConfigCache {
    /// An empty cache that trusts values for an hour.
    pub fn new() -> (r: Self)
        ensures
            r.values@.len() == 0,
            r.ttl_seconds == 3600,
    {
        ConfigCache { values: Vec::new(), ttl_seconds: 3600 }
    }

    /// Whether a value read at `timestamp` is stale at `now`.
    pub fn is_expired(&self, timestamp: u64, now: u64) -> (r: bool)
        ensures
            r == (now > timestamp && now - timestamp > self.ttl_seconds),
    {
        now > timestamp && now - timestamp > self.ttl_seconds
    }

    /// The value of `key`, when it is not stale at `now`.
    pub fn get(&self, key: &str, now: u64) -> (r: Option<String>)
        ensures
            match lookup(self.values@, key@) {
                Some((v, t)) => if now > t && now - t > self.ttl_seconds {
                    r.is_none()
                } else {
                    r == Some(v)
                },
                None => r.is_none(),
            },
    {
        match map_position(&self.values, key) {
            Some(i) => {
                let t = self.values[i].1.1;
                if self.is_expired(t, now) {
                    None
                } else {
                    Some(self.values[i].1.0.clone())
                }
            },
            None => None,
        }
    }

    /// Stores the value of `key` read at `now`.
    pub fn set(&mut self, key: String, value: String, now: u64)
        ensures
            final(self).values@ == insert_spec(old(self).values@, key, (value, now)),
            final(self).ttl_seconds == old(self).ttl_seconds,
    {
        map_insert(&mut self.values, key, (value, now));
    }
}

/// A value set at `now` is read back under its key until the time to live has passed.
pub proof fn lemma_set_value_read_back(m: Seq<(String, (String, u64))>, key: String, value: String, now: u64, later: u64, ttl: u64)
    requires
        later >= now,
        later - now <= ttl,
    ensures
        lookup(insert_spec(m, key, (value, now)), key@) == Some((value, now)),
        !(later > now && later - now > ttl),
{
    lemma_lookup_inserted(m, key, (value, now));
}

/// Whether a setting's text means true: `true` in any case, or `1`.
pub open spec fn truthy(v: Seq<char>) -> bool {
    lowercase(v) == "true"@ || v == "1"@
}

/// Whether a setting's text means true.
pub fn parse_bool(v: &str) -> (r: bool)
    ensures
        r == truthy(v@),
{
    let l = to_lowercase(v);
    str_eq(l.as_str(), "true") || str_eq(v, "1")
}

/// A setting's value, or `default` when it is not set.
pub fn value_or(v: Option<String>, default: &str) -> (r: String)
    ensures
        r@ == match v {
            Some(s) => s@,
            None => default@,
        },
{
    match v {
        Some(s) => s,
        None => owned(default),
    }
}

} // verus!
