//! Reconnect backoff shared by the long-lived daemon watch streams.
//!
//! A failed connect doubles the wait up to a cap; a round that reached the
//! daemon resets it to the base, so a restarted daemon is picked up at once.
use vstd::prelude::*;

verus! {

/// The first wait, and the wait after a round that reached the daemon (ms).
pub const WATCH_BACKOFF_BASE_MS: u64 = 1000;

/// The longest wait between two reconnects (ms).
pub const WATCH_BACKOFF_MAX_MS: u64 = 8000;

/// The wait after a round that reached the daemon (`connected`) or not.
pub open spec fn next_backoff_spec(current: u64, connected: bool) -> u64 {
    if connected {
        WATCH_BACKOFF_BASE_MS
    } else if current >= WATCH_BACKOFF_MAX_MS / 2 {
        WATCH_BACKOFF_MAX_MS
    } else {
        (current * 2) as u64
    }
}

/// The next wait: doubled and capped after a failed connect, the base after a
/// connected round.
pub fn next_backoff_ms(current: u64, connected: bool) -> (r: u64)
    ensures
        r == next_backoff_spec(current, connected),
        connected ==> r == WATCH_BACKOFF_BASE_MS,
        !connected ==> r <= WATCH_BACKOFF_MAX_MS,
        !connected ==> r == if 2 * current <= WATCH_BACKOFF_MAX_MS {
            2 * current
        } else {
            WATCH_BACKOFF_MAX_MS as int
        },
{
    if connected {
        WATCH_BACKOFF_BASE_MS
    } else if current >= WATCH_BACKOFF_MAX_MS / 2 {
        WATCH_BACKOFF_MAX_MS
    } else {
        current * 2
    }
}

/// Starting from the base, the wait stays between the base and the cap
/// whatever the daemon does.
pub proof fn lemma_backoff_stays_bounded(current: u64, connected: bool)
    requires
        WATCH_BACKOFF_BASE_MS <= current <= WATCH_BACKOFF_MAX_MS,
    ensures
        WATCH_BACKOFF_BASE_MS <= next_backoff_spec(current, connected) <= WATCH_BACKOFF_MAX_MS,
        !connected ==> current <= next_backoff_spec(current, connected),
{
}

} // verus!
