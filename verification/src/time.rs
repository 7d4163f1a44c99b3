//! Units of time.
//!
//! Time points are nanoseconds on a monotonic clock, counted from an origin
//! that the caller chooses (such as when the program started); spans of time
//! are nanoseconds too. The clock is read by the caller and handed in.

use vstd::prelude::*;

verus! {

/// Nanoseconds in a millisecond.
pub const NANOS_PER_MILLI: u64 = 1_000_000;

/// Nanoseconds in a second.
pub const NANOS_PER_SECOND: u64 = 1_000_000_000;

/// `value`, or the nearest end of the range of `u64` where it falls outside.
pub open spec fn clamp_u64(value: int) -> u64 {
    if value < 0 {
        0
    } else if value > u64::MAX {
        u64::MAX
    } else {
        value as u64
    }
}

/// How long from `now` until `span` after `deadline_base`: zero once that has
/// passed, a full `u64` where the true wait would not fit.
pub fn until(deadline_base: u64, span: u64, now: u64) -> (wait: u64)
    ensures
        wait == clamp_u64(deadline_base + span - now),
{
    if now >= deadline_base {
        span.saturating_sub(now - deadline_base)
    } else {
        (deadline_base - now).saturating_add(span)
    }
}

} // verus!
