//! The ARM generic timer, which counts down an interval.

use vstd::prelude::*;

verus! {

/// The interrupt of the physical timer.
pub const PHYS_TIMER_IRQ_NUM: usize = 30;

/// The interval to load into the timer so that it fires when the counter,
/// now at `cnptct`, reaches `cnptct_deadline`: what is left until then, or
/// nothing when the deadline has passed.
pub fn set_oneshot_timer(cnptct: u64, cnptct_deadline: u64) -> (interval: u64)
    ensures
        cnptct < cnptct_deadline ==> interval == cnptct_deadline - cnptct,
        cnptct >= cnptct_deadline ==> interval == 0,
{
    if cnptct < cnptct_deadline {
        cnptct_deadline - cnptct
    } else {
        0
    }
}

} // verus!
