//! Judging user activity from the system's tick counters.

use vstd::prelude::*;

verus! {

/// Milliseconds since the last input, on a 32-bit tick counter that wraps.
pub open spec fn idle_millis(current_tick: u32, last_input_tick: u32) -> int {
    (current_tick - last_input_tick) % 0x1_0000_0000
}

/// The idle threshold in milliseconds, as the 32-bit counter holds it.
pub open spec fn threshold_millis(idle_threshold_mins: u32) -> int {
    (idle_threshold_mins * 60_000) % 0x1_0000_0000
}

/// The user counts as active while the time since the last input is below the threshold.
pub open spec fn active_at(current_tick: u32, last_input_tick: u32, idle_threshold_mins: u32) -> bool {
    idle_millis(current_tick, last_input_tick) < threshold_millis(idle_threshold_mins)
}

/// Judges activity from the current tick count and the tick of the last input.
pub fn is_active_at(current_tick: u32, last_input_tick: u32, idle_threshold_mins: u32) -> (active:
    bool)
    ensures
        active == active_at(current_tick, last_input_tick, idle_threshold_mins),
{
    let threshold_ms: u64 = (idle_threshold_mins as u64) * 60_000;
    let threshold: u32 = (threshold_ms % 0x1_0000_0000) as u32;
    let idle: u32 = if current_tick >= last_input_tick {
        current_tick - last_input_tick
    } else {
        let back: u32 = last_input_tick - current_tick;
        (u32::MAX - back) + 1
    };
    idle < threshold
}

} // verus!
