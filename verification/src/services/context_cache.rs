//! The cache of message classifications, keyed by the SHA-256 of the message, and the
//! counters that say how often it spared a call to the classifier.
//!
//! How long an entry is trusted comes from the classifier's confidence, which the caller
//! turns into minutes; the floating-point savings estimate stays with the caller too.

use vstd::prelude::*;
use crate::keyed::{insert_spec, lemma_lookup_inserted, lookup, map_insert, map_position};


verus! {

/// The lowercase hex notation of the SHA-256 digest of some bytes.
pub uninterp spec fn sha256_hex(bytes: Seq<u8>) -> Seq<char>;

/// The cache key of a message: the SHA-256 digest of its UTF-8 bytes, in lowercase hex,
/// computed with `sha2::Sha256`.
#[verifier::external_body]
fn hash_message(message: &str) -> (r: String)
    ensures
        r@ == sha256_hex(vstd::utf8::encode_utf8(message@)),
{
    let digest = <sha2::Sha256 as sha2::Digest>::digest(message.as_bytes());
    format!("{:x}", digest)
}

/// A classification kept for a message.
#[derive(Debug, Clone)]
pub struct CachedClassification {
    pub is_activity: bool,
    pub reason: String,
    /// When it was stored, in seconds.
    pub stored_at: i64,
    /// How long it is trusted.
    pub ttl_minutes: i64,
}

/// How often the cache was asked and answered.
#[derive(Debug, Clone, Copy, PartialEq, Eq)]
pub struct CacheStats {
    pub total_requests: u64,
    pub cache_hits: u64,
    pub pattern_hits: u64,
    pub ai_calls: u64,
}

/// Classifications by message digest, with the counters.
#[derive(Debug)]
pub struct ContextCache {
    pub entries: Vec<(String, CachedClassification)>,
    pub stats: CacheStats,
}

/// At most this many entries are kept before old ones are dropped.
pub open spec fn max_entries() -> nat {
    1000
}

/// Whether an entry is still trusted at `now`: younger than its time to live.
pub open spec fn trusted(e: CachedClassification, now: i64) -> bool {
    now - e.stored_at < e.ttl_minutes * 60
}

/// Whether an entry survives a cleanup at `now`: younger than two hours.
pub open spec fn young(e: CachedClassification, now: i64) -> bool {
    now - e.stored_at < 7200
}

/// The entries that survive a cleanup at `now`, in order.
pub open spec fn young_entries(m: Seq<(String, CachedClassification)>, now: i64) -> Seq<(String, CachedClassification)>
    decreases m.len(),
{
    if m.len() == 0 {
        m
    } else if young(m.last().1, now) {
        young_entries(m.drop_last(), now).push(m.last())
    } else {
        young_entries(m.drop_last(), now)
    }
}

/// The cache key of a message: the lowercase hex SHA-256 of its UTF-8 bytes.
pub open spec fn message_key(message: Seq<char>) -> Seq<char> {
    sha256_hex(vstd::utf8::encode_utf8(message))
}

/// What a lookup answers: the kept classification and its reason, when still trusted.
pub open spec fn cached_answer(m: Seq<(String, CachedClassification)>, key: Seq<char>, now: i64) -> Option<(bool, Seq<char>)> {
    match lookup(m, key) {
        Some(e) => if trusted(e, now) { Some((e.is_activity, e.reason@)) } else { None },
        None => None,
    }
}

/// The view of an optional answer.
pub open spec fn answer_view(o: Option<(bool, String)>) -> Option<(bool, Seq<char>)> {
    match o {
        Some(a) => Some((a.0, a.1@)),
        None => None,
    }
}

/// The entries after storing `e` under `key` at `now`: stored, then cleaned when more than
/// the maximum are kept.
pub open spec fn stored_entries(m: Seq<(String, CachedClassification)>, key: String, e: CachedClassification, now: i64) -> Seq<(String, CachedClassification)> {
    let m2 = insert_spec(m, key, e);
    if m2.len() > max_entries() {
        young_entries(m2, now)
    } else {
        m2
    }
}

/// Whether learned patterns are saved after this many requests: every fifty.
pub open spec fn auto_save_due(total_requests: u64) -> bool {
    total_requests > 0 && total_requests % 50 == 0
}

/// Whether learned patterns are saved after this many requests.
pub fn should_auto_save(total_requests: u64) -> (r: bool)
    ensures
        r == auto_save_due(total_requests),
{
    total_requests > 0 && total_requests % 50 == 0
}

impl ContextCache {
    /// An empty cache with zero counters.
    pub fn new() -> (r: Self)
        ensures
            r.entries@.len() == 0,
            r.stats == (CacheStats { total_requests: 0, cache_hits: 0, pattern_hits: 0, ai_calls: 0 }),
    {
        ContextCache {
            entries: Vec::new(),
            stats: CacheStats { total_requests: 0, cache_hits: 0, pattern_hits: 0, ai_calls: 0 },
        }
    }

    /// The trusted classification of a message digest at `now`; a hit is counted.
    pub fn get_cached_at(&mut self, key: &str, now: i64) -> (r: Option<(bool, String)>)
        requires
            old(self).stats.cache_hits < u64::MAX,
        ensures
            answer_view(r) == cached_answer(old(self).entries@, key@, now),
            final(self).entries@ == old(self).entries@,
            final(self).stats == (CacheStats {
                cache_hits: if r is Some { (old(self).stats.cache_hits + 1) as u64 } else { old(self).stats.cache_hits },
                ..old(self).stats
            }),
    {
        match map_position(&self.entries, key) {
            Some(i) => {
                let e = &self.entries[i].1;
                if (now as i128) - (e.stored_at as i128) < (e.ttl_minutes as i128) * 60 {
                    let answer = (e.is_activity, e.reason.clone());
                    self.stats.cache_hits = self.stats.cache_hits + 1;
                    Some(answer)
                } else {
                    None
                }
            },
            None => None,
        }
    }

    /// The trusted classification of a message at `now`, looked up by its SHA-256; a hit is
    /// counted.
    pub fn get_cached_classification_at(&mut self, message: &str, now: i64) -> (r: Option<(bool, String)>)
        requires
            old(self).stats.cache_hits < u64::MAX,
        ensures
            answer_view(r) == cached_answer(old(self).entries@, message_key(message@), now),
            final(self).entries@ == old(self).entries@,
            final(self).stats == (CacheStats {
                cache_hits: if r is Some { (old(self).stats.cache_hits + 1) as u64 } else { old(self).stats.cache_hits },
                ..old(self).stats
            }),
    {
        let key = hash_message(message);
        self.get_cached_at(key.as_str(), now)
    }

    /// Stores a classification of a message at `now` under its SHA-256, trusted for
    /// `ttl_minutes`.
    pub fn store_classification_at(&mut self, message: &str, is_activity: bool, reason: String, ttl_minutes: i64, now: i64)
        ensures
            exists|key: String|
                key@ == message_key(message@) && final(self).entries@ == stored_entries(
                    old(self).entries@,
                    key,
                    CachedClassification { is_activity, reason, stored_at: now, ttl_minutes },
                    now,
                ),
            final(self).stats == old(self).stats,
    {
        let key = hash_message(message);
        self.store_at(key, is_activity, reason, ttl_minutes, now);
    }

    /// Stores a classification of a message digest at `now`, trusted for `ttl_minutes`;
    /// beyond the maximum size, entries older than two hours are dropped.
    pub fn store_at(&mut self, key: String, is_activity: bool, reason: String, ttl_minutes: i64, now: i64)
        ensures
            final(self).entries@ == stored_entries(old(self).entries@, key, CachedClassification {
                is_activity,
                reason,
                stored_at: now,
                ttl_minutes,
            }, now),
            final(self).stats == old(self).stats,
    {
        let e = CachedClassification { is_activity, reason, stored_at: now, ttl_minutes };
        map_insert(&mut self.entries, key, e);
        if self.entries.len() > 1000 {
            self.cleanup_at(now);
        }
    }

    /// Drops the entries two hours old or more at `now`.
    pub fn cleanup_at(&mut self, now: i64)
        ensures
            final(self).entries@ == young_entries(old(self).entries@, now),
            final(self).stats == old(self).stats,
    {
        let mut all: Vec<(String, CachedClassification)> = Vec::new();
        std::mem::swap(&mut all, &mut self.entries);
        let ghost m = all@;
        let mut kept: Vec<(String, CachedClassification)> = Vec::new();
        let mut i: usize = 0;
        while i < all.len()
            invariant
                i <= all@.len(),
                all@ == m,
                kept@ == young_entries(m.take(i as int), now),
            decreases all@.len() - i,
        {
            let ghost pre = m.take(i + 1);
            assert(pre.drop_last() == m.take(i as int));
            assert(pre.last() == m[i as int]);
            let stored_at = all[i].1.stored_at;
            if (now as i128) - (stored_at as i128) < 7200 {
                let k = all[i].0.clone();
                let e = CachedClassification {
                    is_activity: all[i].1.is_activity,
                    reason: all[i].1.reason.clone(),
                    stored_at,
                    ttl_minutes: all[i].1.ttl_minutes,
                };
                kept.push((k, e));
                assert(kept@.last() == m[i as int]);
            }
            i = i + 1;
        }
        assert(m.take(m.len() as int) == m);
        self.entries = kept;
    }

    /// Counts a request.
    pub fn increment_request_count(&mut self)
        requires
            old(self).stats.total_requests < u64::MAX,
        ensures
            final(self).entries@ == old(self).entries@,
            final(self).stats == (CacheStats { total_requests: (old(self).stats.total_requests + 1) as u64, ..old(self).stats }),
    {
        self.stats.total_requests = self.stats.total_requests + 1;
    }

    /// Counts an answer found by the pattern classifier.
    pub fn increment_pattern_hits(&mut self)
        requires
            old(self).stats.pattern_hits < u64::MAX,
        ensures
            final(self).entries@ == old(self).entries@,
            final(self).stats == (CacheStats { pattern_hits: (old(self).stats.pattern_hits + 1) as u64, ..old(self).stats }),
    {
        self.stats.pattern_hits = self.stats.pattern_hits + 1;
    }

    /// Counts a call to the classifier.
    pub fn increment_ai_calls(&mut self)
        requires
            old(self).stats.ai_calls < u64::MAX,
        ensures
            final(self).entries@ == old(self).entries@,
            final(self).stats == (CacheStats { ai_calls: (old(self).stats.ai_calls + 1) as u64, ..old(self).stats }),
    {
        self.stats.ai_calls = self.stats.ai_calls + 1;
    }
}

/// A classification just stored is found again for the same message while its time to
/// live lasts, provided the cache was not over its size.
pub proof fn lemma_stored_classification_found(
    m: Seq<(String, CachedClassification)>,
    key: String,
    is_activity: bool,
    reason: String,
    ttl_minutes: i64,
    now: i64,
    later: i64,
)
    requires
        insert_spec(m, key, CachedClassification { is_activity, reason, stored_at: now, ttl_minutes }).len() <= max_entries(),
        later - now < ttl_minutes * 60,
    ensures
        cached_answer(
            stored_entries(m, key, CachedClassification { is_activity, reason, stored_at: now, ttl_minutes }, now),
            key@,
            later,
        ) == Some((is_activity, reason@)),
{
    lemma_lookup_inserted(m, key, CachedClassification { is_activity, reason, stored_at: now, ttl_minutes });
}

} // verus!
