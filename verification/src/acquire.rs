//! Clipboard access acquisition policy: exclusive access is contended with
//! other applications, so an attempt that fails is retried a bounded number
//! of times, with a short pause between attempts, before the pass gives up.
//!
//! The host performs the acquisition calls and the pauses; the bound and the
//! pause length are fixed here.

use vstd::prelude::*;

verus! {

/// How many times one pass attempts to acquire clipboard access.
pub const OPEN_RETRY_ATTEMPTS: u32 = 10;

/// The pause, in milliseconds, between two acquisition attempts.
pub const OPEN_RETRY_PAUSE_MS: u64 = 10;

/// Whether acquisition attempt number `attempt` (counted from zero) may
/// still be made: exactly `OPEN_RETRY_ATTEMPTS` attempts are allowed before
/// the pass reports an acquisition failure.
pub fn should_retry(attempt: u32) -> (r: bool)
    ensures
        r == (attempt < OPEN_RETRY_ATTEMPTS),
{
    attempt < OPEN_RETRY_ATTEMPTS
}

} // verus!
