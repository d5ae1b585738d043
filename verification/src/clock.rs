//! The system clock.

use vstd::prelude::*;

verus! {

/// Milliseconds since the Unix epoch by the system clock (`SystemTime::now`), 0 for a clock
/// set before the epoch. The value depends on the moment of the call, so nothing is stated
/// of it.
#[verifier::external_body]
pub(crate) fn now_millis() -> (r: u64) {
    match std::time::SystemTime::now().duration_since(std::time::UNIX_EPOCH) {
        Ok(d) => d.as_millis() as u64,
        Err(_) => 0,
    }
}

/// Seconds since the Unix epoch by `chrono::Utc::now().timestamp()`. The value depends on
/// the moment of the call, so nothing is stated of it.
#[verifier::external_body]
pub(crate) fn utc_seconds() -> (r: i64) {
    chrono::Utc::now().timestamp()
}

/// Milliseconds since the Unix epoch by `chrono::Utc::now().timestamp_millis()`. The value
/// depends on the moment of the call, so nothing is stated of it.
#[verifier::external_body]
pub(crate) fn utc_millis() -> (r: i64) {
    chrono::Utc::now().timestamp_millis()
}

} // verus!
