//! Verified core of a type-1 hypervisor kernel for a single RISC-V hart:
//! register frames, trap classification, the task abstraction, the
//! round-robin scheduler and the task manager, written as functions from
//! state to state whose contracts are proved.

pub mod cbindings;
pub mod config;
pub mod drivers;
pub mod mm;
pub mod paging;
pub mod arch;
pub mod hypercall;
pub mod syscall;
pub mod task;
