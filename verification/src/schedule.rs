//! The elapsed-time gate every plugin runs behind: a plugin is due when it
//! is enabled and at least its configured interval has passed since its
//! last run. The marker is advanced before processing begins, so a tick is
//! attempted at most once per interval and a failing tick is not retried
//! within it.

use vstd::prelude::*;

verus! {

/// Whether a plugin is due at `now`: enabled, and `interval` seconds or
/// more elapsed since `last_run`.
pub open spec fn due_spec(enabled: bool, interval: i64, last_run: i64, now: i64) -> bool {
    enabled && now - last_run >= interval
}

/// Decides whether a plugin is due. The subtraction is exact: it is
/// carried out in a width no pair of timestamps can overflow.
pub fn due(enabled: bool, interval: i64, last_run: i64, now: i64) -> (r: bool)
    ensures
        r == due_spec(enabled, interval, last_run, now),
{
    enabled && (now as i128) - (last_run as i128) >= (interval as i128)
}

/// With a non-negative interval, advancing the last-run marker of a due
/// plugin to `now` never moves it backwards: the marker is monotonically
/// non-decreasing across ticks.
pub proof fn lemma_last_run_monotonic(enabled: bool, interval: i64, last_run: i64, now: i64)
    requires
        interval >= 0,
        due_spec(enabled, interval, last_run, now),
    ensures
        now >= last_run,
{
}

} // verus!
