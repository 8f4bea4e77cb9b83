//! The ticker's scheduling rule.
//!
//! One ticker runs per repository that has a configured interval, on an
//! independent schedule-check loop. The loop, its sleeps and its
//! cancellation live outside the library; whether a wakeup submits the
//! repository for an update is decided here.

use vstd::prelude::*;

verus! {

/// One scheduling check: an update is due when no attempt has ever run, or
/// the interval has fully elapsed since the last one began. Times and the
/// interval are in milliseconds.
pub fn tick_due(last_checked: Option<u64>, interval: u64, now: u64) -> (r: bool)
    ensures
        r == (match last_checked {
            None => true,
            Some(t) => t + interval < now,
        }),
{
    match last_checked {
        None => true,
        Some(t) => if now > t {
            now - t > interval
        } else {
            false
        },
    }
}

/// After an attempt, the change script runs exactly when the attempt
/// changed the working copy and a script is configured.
pub fn should_run_script(changed: bool, on_change: &Option<String>) -> (r: bool)
    ensures
        r == (changed && on_change is Some),
{
    changed && on_change.is_some()
}

} // verus!
