//! The simulation clock: it says when the next tick is due and does nothing else.

use vstd::prelude::*;

verus! {

/// Time between two ticks, in milliseconds.
pub const TICK_INTERVAL_MS: u64 = 100;

/// Whether at time `now` at least `interval` has passed since `last_tick`.
/// All three are counted in the same unit from the same origin.
pub fn due(now: u64, last_tick: u64, interval: u64) -> (is_due: bool)
    ensures
        is_due == (now >= last_tick + interval),
{
    now >= last_tick && now - last_tick >= interval
}

} // verus!
