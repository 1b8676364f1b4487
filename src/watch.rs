//! Decisions of the file watcher that rebuilds a sketch on change.
use vstd::prelude::*;

verus! {

/// True when a change to the same paths was handled less than `debounce_ms` milliseconds
/// ago, so that this one is skipped. `last_event_ms` is when the last handled change of
/// these paths happened, if any, and `now_ms` the present time, both in milliseconds on one
/// clock; a last time after the present (a clock that went back) never skips.
pub fn should_debounce(last_event_ms: Option<u128>, now_ms: u128, debounce_ms: u128) -> (r: bool)
    ensures
        r == match last_event_ms {
            Some(t) => t <= now_ms && now_ms - t < debounce_ms,
            None => false,
        },
{
    match last_event_ms {
        Some(t) => t <= now_ms && now_ms - t < debounce_ms,
        None => false,
    }
}

} // verus!
