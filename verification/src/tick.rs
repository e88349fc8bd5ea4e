//! Monotonic millisecond ticks that wrap at 2^32.

use vstd::prelude::*;

verus! {

/// Milliseconds from `then` to `now` on a clock that wraps at 2^32.
pub open spec fn elapsed_spec(now: u32, then: u32) -> u32 {
    if now >= then {
        (now - then) as u32
    } else {
        (now + 0x1_0000_0000 - then) as u32
    }
}

/// Milliseconds from `then` to `now`, transparent to one wrap of the clock.
pub fn elapsed(now: u32, then: u32) -> (d: u32)
    ensures
        d == elapsed_spec(now, then),
{
    now.wrapping_sub(then)
}

} // verus!
