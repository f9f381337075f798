//! Constants of the platform.

use vstd::prelude::*;

verus! {

/// Bytes of the kernel stack of each task.
pub const KERNEL_STACK_SIZE: usize = 0x4000;

/// Ticks of the timer in a second.
pub const TIMER_FREQUENCY: usize = 10_000_000;

/// Timer ticks that a task may run before it is asked to give way.
pub const MAX_TIME_SLICE: usize = 10;

} // verus!
