use vstd::prelude::*;

verus! {

/// Nanoseconds in one millisecond.
pub const NANOS_PER_MILLI: u64 = 1_000_000;

/// Nanoseconds in one second.
pub const NANOS_PER_SEC: u64 = 1_000_000_000;

/// Time from `since` to `now`; zero when `since` lies after `now`, as a
/// monotonic clock's `duration_since` saturates.
pub open spec fn elapsed(now: u64, since: u64) -> int {
    if now >= since {
        now - since
    } else {
        0
    }
}

/// Whole milliseconds from `since` to `now`, rounded down.
pub open spec fn elapsed_millis(now: u64, since: u64) -> int {
    elapsed(now, since) / (NANOS_PER_MILLI as int)
}

/// Nanoseconds from `since` to `now`, saturating at zero.
pub fn elapsed_ns(now: u64, since: u64) -> (d: u64)
    ensures
        d == elapsed(now, since),
{
    if now >= since {
        now - since
    } else {
        0
    }
}

} // verus!
