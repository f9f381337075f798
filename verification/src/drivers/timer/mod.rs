//! Timers: ticks of the counter and nanoseconds.

pub mod arm_generic_timer;
pub mod riscv;
