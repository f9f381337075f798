//! The callee-saved state of a task that is switched out, and the switch
//! between two such states.
//!
//! The switch is stated on a register file handed in by the caller: the
//! registers `ra`, `sp`, `s0` to `s11` of the hart and the root of the
//! address space it translates through.

use vstd::prelude::*;
use crate::mm::{PhysAddr, VirtAddr};

verus! {

/// The state a task needs to be resumed after a voluntary switch: return
/// address, stack pointer, the saved registers and the address-space root.
#[derive(Clone, Copy, Debug)]
pub struct TaskContext {
    pub ra: usize,
    pub sp: usize,
    pub s0: usize,
    pub s1: usize,
    pub s2: usize,
    pub s3: usize,
    pub s4: usize,
    pub s5: usize,
    pub s6: usize,
    pub s7: usize,
    pub s8: usize,
    pub s9: usize,
    pub s10: usize,
    pub s11: usize,
    pub satp: usize,
}

impl TaskContext {
    /// The context with every register zero.
    pub open spec fn zeroed() -> Self {
        TaskContext {
            ra: 0, sp: 0, s0: 0, s1: 0, s2: 0, s3: 0, s4: 0, s5: 0, s6: 0, s7: 0,
            s8: 0, s9: 0, s10: 0, s11: 0, satp: 0,
        }
    }

    /// This context with the registers of `regs` and its own root.
    pub open spec fn with_registers_of(self, regs: Self) -> Self {
        TaskContext { satp: self.satp, ..regs }
    }

    /// The context of a task that has not been set up.
    pub fn default() -> (r: Self)
        ensures
            r == Self::zeroed(),
    {
        TaskContext {
            ra: 0, sp: 0, s0: 0, s1: 0, s2: 0, s3: 0, s4: 0, s5: 0, s6: 0, s7: 0,
            s8: 0, s9: 0, s10: 0, s11: 0, satp: 0,
        }
    }

    /// Points the context at `entry`, on the kernel stack that ends at
    /// `kstack_top`, in the address space rooted at `page_table_root`.
    pub fn init(
        &mut self,
        entry: usize,
        kstack_top: VirtAddr,
        page_table_root: PhysAddr,
        _is_kernel: bool,
    )
        ensures
            *final(self) == (TaskContext {
                sp: kstack_top.0,
                ra: entry,
                satp: page_table_root.0,
                ..*old(self)
            }),
    {
        self.sp = kstack_top.as_usize();
        self.ra = entry;
        self.satp = page_table_root.as_usize();
    }

    /// Leaves the task of this context for the task of `next` on `hart`.
    /// The root of `next` is installed first; then the hart's registers are
    /// saved here and those of `next` are loaded. Afterwards the hart holds
    /// exactly `next`, and this context holds what the hart ran with, under
    /// the root it had before.
    pub fn switch_to(&mut self, next: &Self, hart: &mut Self)
        ensures
            *final(hart) == *next,
            *final(self) == old(self).with_registers_of(*old(hart)),
    {
        hart.satp = next.satp;
        let satp = self.satp;
        *self = *hart;
        self.satp = satp;
        *hart = *next;
    }
}

/// The callee-saved state of a process.
#[derive(Clone, Copy, Debug)]
pub struct ProcessContext {
    pub ra: usize,
    pub sp: usize,
    pub s0: usize,
    pub s1: usize,
    pub s2: usize,
    pub s3: usize,
    pub s4: usize,
    pub s5: usize,
    pub s6: usize,
    pub s7: usize,
    pub s8: usize,
    pub s9: usize,
    pub s10: usize,
    pub s11: usize,
    pub satp: usize,
}

/// The callee-saved state of a guest.
#[derive(Clone, Copy, Debug)]
pub struct GuestContext {
    pub ra: usize,
    pub sp: usize,
    pub s0: usize,
    pub s1: usize,
    pub s2: usize,
    pub s3: usize,
    pub s4: usize,
    pub s5: usize,
    pub s6: usize,
    pub s7: usize,
    pub s8: usize,
    pub s9: usize,
    pub s10: usize,
    pub s11: usize,
    pub satp: usize,
}

/// What the task manager asks of the saved state of any task.
pub trait Context {
    /// The saved state, read as that of a process.
    spec fn saved(&self) -> ProcessContext;

    /// Whether this is the state of a process.
    spec fn spec_is_process(&self) -> bool;

    /// Points the context at `entry`, on the kernel stack that ends at
    /// `kstack_top`, in the address space rooted at `page_table_root`.
    fn init(
        &mut self,
        entry: usize,
        kstack_top: VirtAddr,
        page_table_root: PhysAddr,
        _is_kernel: bool,
    )
        ensures
            final(self).saved() == (ProcessContext {
                sp: kstack_top.0,
                ra: entry,
                satp: page_table_root.0,
                ..old(self).saved()
            }),
            final(self).spec_is_process() == old(self).spec_is_process(),
    ;

    fn is_process(&self) -> (r: bool)
        ensures
            r == self.spec_is_process(),
    ;

    /// Leaves the task of this context for the process of `next_ctx` on
    /// `hart`: afterwards the hart holds exactly `next_ctx`, and this
    /// context holds what the hart ran with, under the root it had before.
    fn switch_to_process(&mut self, next_ctx: &ProcessContext, hart: &mut ProcessContext)
        ensures
            *final(hart) == *next_ctx,
            final(self).saved() == old(self).saved().with_registers_of(*old(hart)),
            final(self).spec_is_process() == old(self).spec_is_process(),
    ;
}

impl ProcessContext {
    /// The context with every register zero.
    pub open spec fn zeroed() -> Self {
        ProcessContext {
            ra: 0, sp: 0, s0: 0, s1: 0, s2: 0, s3: 0, s4: 0, s5: 0, s6: 0, s7: 0,
            s8: 0, s9: 0, s10: 0, s11: 0, satp: 0,
        }
    }

    /// This context with the registers of `regs` and its own root.
    pub open spec fn with_registers_of(self, regs: Self) -> Self {
        ProcessContext { satp: self.satp, ..regs }
    }
}

impl Default for ProcessContext {
    fn default() -> (r: Self)
        ensures
            r == ProcessContext::zeroed(),
    {
        ProcessContext {
            ra: 0, sp: 0, s0: 0, s1: 0, s2: 0, s3: 0, s4: 0, s5: 0, s6: 0, s7: 0,
            s8: 0, s9: 0, s10: 0, s11: 0, satp: 0,
        }
    }
}

impl Context for ProcessContext {
    open spec fn saved(&self) -> ProcessContext {
        *self
    }

    open spec fn spec_is_process(&self) -> bool {
        true
    }

    fn init(
        &mut self,
        entry: usize,
        kstack_top: VirtAddr,
        page_table_root: PhysAddr,
        _is_kernel: bool,
    ) {
        self.sp = kstack_top.as_usize();
        self.ra = entry;
        self.satp = page_table_root.as_usize();
    }

    fn is_process(&self) -> (r: bool) {
        true
    }

    fn switch_to_process(&mut self, next_ctx: &ProcessContext, hart: &mut ProcessContext) {
        hart.satp = next_ctx.satp;
        let satp = self.satp;
        *self = *hart;
        self.satp = satp;
        *hart = *next_ctx;
    }
}

} // verus!
