//! The RISC-V timer: the `time` counter, which ticks `TIMER_FREQUENCY`
//! times a second.

use vstd::prelude::*;

verus! {

pub const NANOS_PER_SEC: u64 = 1_000_000_000;

/// Nanoseconds in one tick of the counter: a second over the frequency
/// of the timer, which is 10 MHz.
pub const NANOS_PER_TICK: u64 = 100;

/// The ticks that a value read from the `time` counter stands for.
pub fn current_ticks(time: usize) -> (r: u64)
    ensures
        r == time as u64,
{
    time as u64
}

/// The full ticks in `nanos` nanoseconds.
pub fn nanos_to_ticks(nanos: u64) -> (r: u64)
    ensures
        r == nanos / NANOS_PER_TICK,
{
    nanos / NANOS_PER_TICK
}

/// The nanoseconds in `ticks` ticks, where they fit in 64 bits.
pub fn ticks_to_nanos(ticks: u64) -> (r: u64)
    requires
        ticks * NANOS_PER_TICK <= u64::MAX,
    ensures
        r == ticks * NANOS_PER_TICK,
{
    ticks * NANOS_PER_TICK
}

/// The value of the counter at which the timer has to fire for a deadline
/// of `deadline_ns` nanoseconds.
pub fn set_oneshot_timer(deadline_ns: u64) -> (r: u64)
    ensures
        r == deadline_ns / NANOS_PER_TICK,
{
    nanos_to_ticks(deadline_ns)
}

/// Ticks and nanoseconds agree: the ticks in the nanoseconds of `ticks`
/// ticks are `ticks`, and the nanoseconds of the ticks in `nanos`
/// nanoseconds are at most `nanos` and less than one tick short of it.
pub proof fn lemma_ticks_and_nanos(ticks: u64, nanos: u64)
    ensures
        (ticks * NANOS_PER_TICK) / (NANOS_PER_TICK as int) == ticks,
        (nanos / NANOS_PER_TICK) * NANOS_PER_TICK <= nanos,
        nanos - (nanos / NANOS_PER_TICK) * NANOS_PER_TICK < NANOS_PER_TICK,
{
}

} // verus!
