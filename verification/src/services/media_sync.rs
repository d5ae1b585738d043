//! Waiting for media results, switched off while media is processed directly.

use vstd::prelude::*;
use crate::error::AppError;
use crate::text::owned;

verus! {

/// Waits for the results of media processing; switched off, it answers that it is.
#[derive(Clone, Debug)]
pub struct MediaSyncService {
    /// How long a wait would last, in seconds.
    pub default_timeout_seconds: u64,
}

impl MediaSyncService {
    /// A service that would wait `timeout_seconds`.
    pub fn new(timeout_seconds: u64) -> (r: Self)
        ensures
            r.default_timeout_seconds == timeout_seconds,
    {
        MediaSyncService { default_timeout_seconds: timeout_seconds }
    }

    /// Always an internal error: the service is switched off.
    pub fn wait_for_result(&self, correlation_id: String) -> (r: Result<String, AppError>)
        ensures
            r matches Err(AppError::InternalError(e)) && e@ == "Media Sync Service disabled during Vertex AI refactoring"@,
    {
        Err(AppError::InternalError(owned("Media Sync Service disabled during Vertex AI refactoring")))
    }

    /// Always false: nobody waits.
    pub fn notify_result(&self, result: String) -> (r: bool)
        ensures
            !r,
    {
        false
    }

    /// Always zero.
    pub fn pending_count(&self) -> (r: usize)
        ensures
            r == 0,
    {
        0
    }
}

} // verus!
