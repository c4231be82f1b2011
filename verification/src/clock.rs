//! The wall clock, the one ambient input of the scheduler. Every decision
//! function takes the time as a plain argument; only the tick entry points
//! read the clock itself.

use vstd::prelude::*;

verus! {

/// Relies on chrono::Utc::now and chrono::DateTime::timestamp: the current
/// Unix time in whole seconds. Non-negative, because chrono::Utc::now
/// fails on a clock set before 1970 and otherwise round-trips the seconds
/// it read. Nothing more can be promised of a clock reading.
#[verifier::external_body]
pub fn now_seconds() -> (r: i64)
    ensures
        r >= 0,
{
    chrono::Utc::now().timestamp()
}

} // verus!
