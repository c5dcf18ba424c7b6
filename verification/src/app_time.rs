//! Moments on a clock that never goes back, in nanoseconds.

use vstd::prelude::*;

verus! {

/// How often GitHub is asked, in nanoseconds.
pub const GITHUB_INTERVAL: u64 = 60_000_000_000;

/// How often inboxes are polled, in nanoseconds.
pub const INBOX_INTERVAL: u64 = 2_000_000_000;

/// How often what is shown is read again, in nanoseconds.
pub const REFRESH_INTERVAL: u64 = 1_000_000_000;

/// The time from `then` to `now`, none if `then` lies ahead.
pub open spec fn elapsed(then: i64, now: i64) -> int {
    if then <= now {
        now - then
    } else {
        0
    }
}

/// The time from `then` to `now`, none if `then` lies ahead.
pub fn time_since(then: i64, now: i64) -> (t: u64)
    ensures
        t == elapsed(then, now),
{
    if then <= now {
        (now as i128 - then as i128) as u64
    } else {
        0
    }
}

} // verus!
