//! The retry policy of a single track: how often it is attempted, how long
//! the wait between two attempts lasts, and how long an attempt waits for the
//! download dialog.

use vstd::prelude::*;

verus! {

/// A track is attempted at most this often.
pub const MAX_ATTEMPTS: u32 = 3;

/// The wait after a failed attempt grows by this many seconds per attempt.
pub const RETRY_DELAY_STEP_SECS: u64 = 5;

/// The first attempt waits this many seconds for the download dialog.
pub const DIALOG_TIMEOUT_BASE_SECS: u64 = 60;

/// Each further attempt waits this many seconds longer for the dialog.
pub const DIALOG_TIMEOUT_STEP_SECS: u64 = 30;

/// Seconds to wait after failed attempt number `attempt`.
pub open spec fn retry_delay(attempt: int) -> int {
    RETRY_DELAY_STEP_SECS * attempt
}

/// Seconds that attempt number `attempt` waits for the download dialog.
pub open spec fn dialog_timeout(attempt: int) -> int {
    DIALOG_TIMEOUT_BASE_SECS + DIALOG_TIMEOUT_STEP_SECS * (attempt - 1)
}

/// Seconds to wait after failed attempt number `attempt`, before the next.
pub fn retry_delay_secs(attempt: u32) -> (secs: u64)
    ensures
        secs == retry_delay(attempt as int),
{
    RETRY_DELAY_STEP_SECS * (attempt as u64)
}

/// Seconds that attempt number `attempt` waits for the download dialog.
/// Attempts are numbered from 1.
pub fn dialog_timeout_secs(attempt: u32) -> (secs: u64)
    requires
        attempt >= 1,
    ensures
        secs == dialog_timeout(attempt as int),
{
    DIALOG_TIMEOUT_BASE_SECS + DIALOG_TIMEOUT_STEP_SECS * ((attempt - 1) as u64)
}

/// What follows a failed attempt.
#[derive(Clone, Copy, Debug, PartialEq, Eq, Structural)]
pub enum RetryDecision {
    /// Wait, then make the next attempt.
    RetryAfter { delay_secs: u64, next_attempt: u32 },
    /// The attempts are used up: report the track as failed.
    GiveUp,
}

/// What follows failed attempt number `attempt`.
pub open spec fn decision_after_failure(attempt: int) -> RetryDecision {
    if attempt < MAX_ATTEMPTS {
        RetryDecision::RetryAfter {
            delay_secs: retry_delay(attempt) as u64,
            next_attempt: (attempt + 1) as u32,
        }
    } else {
        RetryDecision::GiveUp
    }
}

/// What follows failed attempt number `attempt`: a wait and another attempt
/// while fewer than [`MAX_ATTEMPTS`] were made, else the end of the track.
pub fn after_failure(attempt: u32) -> (decision: RetryDecision)
    ensures
        decision == decision_after_failure(attempt as int),
{
    if attempt < MAX_ATTEMPTS {
        RetryDecision::RetryAfter {
            delay_secs: retry_delay_secs(attempt),
            next_attempt: attempt + 1,
        }
    } else {
        RetryDecision::GiveUp
    }
}

} // verus!
