//! The timing rule for the event source: how long to wait for input before
//! the next tick is due.

use vstd::prelude::*;

verus! {

/// Milliseconds between synthetic tick events when no input arrives.
pub const TICK_RATE_MS: u64 = 200;

/// How long the event source may poll for input: the remainder of the tick
/// interval, and zero once the tick is already due. Never waits past the
/// tick deadline.
pub fn poll_timeout_ms(elapsed_ms: u64) -> (t: u64)
    ensures
        elapsed_ms < TICK_RATE_MS ==> t == TICK_RATE_MS - elapsed_ms,
        elapsed_ms >= TICK_RATE_MS ==> t == 0,
        t <= TICK_RATE_MS,
{
    if elapsed_ms >= TICK_RATE_MS {
        0
    } else {
        TICK_RATE_MS - elapsed_ms
    }
}

/// Whether a full tick interval has elapsed, so that a tick event is due.
pub fn tick_due(elapsed_ms: u64) -> (b: bool)
    ensures
        b == (elapsed_ms >= TICK_RATE_MS),
{
    elapsed_ms >= TICK_RATE_MS
}

} // verus!
