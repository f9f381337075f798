//! Register frames captured at a trap boundary.

use vstd::prelude::*;
use crate::mm::VirtAddr;

verus! {

/// Enable interrupts on return from the trap.
pub const SSTATUS_SPIE: usize = 0x20;

/// The trap came from supervisor level.
pub const SSTATUS_SPP: usize = 0x100;

/// Supervisor code may access user memory.
pub const SSTATUS_SUM: usize = 0x4_0000;

/// The trapped context was running as a guest.
pub const HSTATUS_SPV: usize = 0x80;

/// Bytes that a saved `TrapFrame` takes on the kernel stack: 34 registers
/// of 8 bytes.
pub const TRAP_FRAME_SIZE: usize = 272;

/// Bytes that a saved `ProcessTrapFrame` takes on the kernel stack: 33
/// registers of 8 bytes.
pub const PROCESS_TRAP_FRAME_SIZE: usize = 264;

/// Offset of `tp` in the saved general registers: it is the fourth.
pub const TP_OFFSET: usize = 24;

/// What the hart is loaded with to leave for user mode through a frame. The
/// general registers come from the frame itself.
#[derive(Clone, Copy, Debug)]
pub struct UserEntry {
    /// Top of the kernel stack, kept in `sscratch` while the user runs.
    pub sscratch: usize,
    /// Where the user resumes.
    pub sepc: usize,
    /// The status register to return with.
    pub sstatus: usize,
    /// The slot under the top of the kernel stack where the kernel's own
    /// `tp` is parked.
    pub kernel_tp_addr: usize,
}

/// The 31 general-purpose registers x1 to x31, in their order in memory.
#[derive(Clone, Copy, Debug)]
pub struct GeneralRegisters {
    pub ra: usize,
    pub sp: usize,
    pub gp: usize,
    pub tp: usize,
    pub t0: usize,
    pub t1: usize,
    pub t2: usize,
    pub s0: usize,
    pub s1: usize,
    pub a0: usize,
    pub a1: usize,
    pub a2: usize,
    pub a3: usize,
    pub a4: usize,
    pub a5: usize,
    pub a6: usize,
    pub a7: usize,
    pub s2: usize,
    pub s3: usize,
    pub s4: usize,
    pub s5: usize,
    pub s6: usize,
    pub s7: usize,
    pub s8: usize,
    pub s9: usize,
    pub s10: usize,
    pub s11: usize,
    pub t3: usize,
    pub t4: usize,
    pub t5: usize,
    pub t6: usize,
}

impl GeneralRegisters {
    /// The register file with every register zero.
    pub open spec fn zeroed() -> Self {
        GeneralRegisters {
            ra: 0, sp: 0, gp: 0, tp: 0, t0: 0, t1: 0, t2: 0, s0: 0, s1: 0,
            a0: 0, a1: 0, a2: 0, a3: 0, a4: 0, a5: 0, a6: 0, a7: 0,
            s2: 0, s3: 0, s4: 0, s5: 0, s6: 0, s7: 0, s8: 0, s9: 0, s10: 0, s11: 0,
            t3: 0, t4: 0, t5: 0, t6: 0,
        }
    }
}

impl Default for GeneralRegisters {
    fn default() -> (r: Self)
        ensures
            r == GeneralRegisters::zeroed(),
    {
        GeneralRegisters {
            ra: 0, sp: 0, gp: 0, tp: 0, t0: 0, t1: 0, t2: 0, s0: 0, s1: 0,
            a0: 0, a1: 0, a2: 0, a3: 0, a4: 0, a5: 0, a6: 0, a7: 0,
            s2: 0, s3: 0, s4: 0, s5: 0, s6: 0, s7: 0, s8: 0, s9: 0, s10: 0, s11: 0,
            t3: 0, t4: 0, t5: 0, t6: 0,
        }
    }
}

/// What is saved when a trap is taken: the general registers, the program
/// counter at the trap, the status register, and the hypervisor status
/// register, whose SPV bit records whether the trapped context was a guest.
#[derive(Clone, Copy, Debug)]
pub struct TrapFrame {
    pub regs: GeneralRegisters,
    pub sepc: usize,
    pub sstatus: usize,
    pub hstatus: usize,
}

impl TrapFrame {
    /// The frame that `new_user` builds.
    pub open spec fn spec_new_user(entry: VirtAddr, ustack_top: VirtAddr, arg0: usize) -> Self {
        TrapFrame {
            regs: GeneralRegisters { a0: arg0, sp: ustack_top.0, ..GeneralRegisters::zeroed() },
            sepc: entry.0,
            sstatus: SSTATUS_SPIE | SSTATUS_SUM,
            hstatus: 0,
        }
    }

    /// The frame for the first entry into a user program: everything zero
    /// but the argument, the stack pointer, the program counter and the two
    /// status bits SPIE and SUM.
    pub fn new_user(entry: VirtAddr, ustack_top: VirtAddr, arg0: usize) -> (r: Self)
        ensures
            r == Self::spec_new_user(entry, ustack_top, arg0),
    {
        let mut regs = GeneralRegisters::default();
        regs.a0 = arg0;
        regs.sp = ustack_top.as_usize();
        TrapFrame { regs, sepc: entry.as_usize(), sstatus: SSTATUS_SPIE | SSTATUS_SUM, hstatus: 0 }
    }

    /// The frame that `new_guest` builds.
    pub open spec fn spec_new_guest(entry: VirtAddr, ustack_top: VirtAddr, arg0: usize) -> Self {
        TrapFrame {
            regs: GeneralRegisters { a0: arg0, sp: ustack_top.0, ..GeneralRegisters::zeroed() },
            sepc: entry.0,
            sstatus: SSTATUS_SPIE | SSTATUS_SUM | SSTATUS_SPP,
            hstatus: HSTATUS_SPV,
        }
    }

    /// The frame for the first entry into a guest: as for a user program,
    /// and marked as coming from a guest (SPV) at supervisor level (SPP).
    pub fn new_guest(entry: VirtAddr, ustack_top: VirtAddr, arg0: usize) -> (r: Self)
        ensures
            r == Self::spec_new_guest(entry, ustack_top, arg0),
    {
        let mut regs = GeneralRegisters::default();
        regs.a0 = arg0;
        regs.sp = ustack_top.as_usize();
        TrapFrame {
            regs,
            sepc: entry.as_usize(),
            sstatus: SSTATUS_SPIE | SSTATUS_SUM | SSTATUS_SPP,
            hstatus: HSTATUS_SPV,
        }
    }

    /// The frame of a cloned child.
    pub open spec fn spec_new_clone(self, ustack_top: VirtAddr) -> Self {
        TrapFrame { regs: GeneralRegisters { sp: ustack_top.0, a0: 0, ..self.regs }, ..self }
    }

    /// The frame a cloned child starts from: the parent's, on a stack of its
    /// own, with 0 as the value that the clone call returns to the child.
    pub fn new_clone(&self, ustack_top: VirtAddr) -> (r: Self)
        ensures
            r == self.spec_new_clone(ustack_top),
            r.regs.a0 == 0,
            r.regs.sp == ustack_top.0,
    {
        let mut tf = *self;
        tf.regs.sp = ustack_top.as_usize();
        tf.regs.a0 = 0;
        tf
    }

    /// The frame of a forked child.
    pub open spec fn spec_new_fork(self) -> Self {
        TrapFrame { regs: GeneralRegisters { a0: 0, ..self.regs }, ..self }
    }

    /// The frame a forked child starts from: the parent's, with 0 as the
    /// value that the fork call returns to the child.
    pub fn new_fork(&self) -> (r: Self)
        ensures
            r == self.spec_new_fork(),
            r.regs.a0 == 0,
    {
        let mut tf = *self;
        tf.regs.a0 = 0;
        tf
    }

    /// Writes the value that a call returns into the frame.
    pub fn set_return_value(&mut self, value: usize)
        ensures
            *final(self) == (TrapFrame {
                regs: GeneralRegisters { a0: value, ..old(self).regs },
                ..*old(self)
            }),
    {
        self.regs.a0 = value;
    }

    /// Whether the trapped context was running as a guest.
    pub open spec fn spec_from_guest(self) -> bool {
        self.hstatus & HSTATUS_SPV != 0
    }

    /// Whether the trapped context was running as a guest: the SPV bit of
    /// the saved hypervisor status.
    pub fn from_guest(&self) -> (r: bool)
        ensures
            r == self.spec_from_guest(),
    {
        self.hstatus & HSTATUS_SPV != 0
    }

    /// What the hart is loaded with to enter the user through this frame.
    pub open spec fn spec_exec(self, kstack_top: VirtAddr) -> UserEntry {
        UserEntry {
            sscratch: kstack_top.0,
            sepc: self.sepc,
            sstatus: self.sstatus,
            kernel_tp_addr: (kstack_top.0 - TRAP_FRAME_SIZE + TP_OFFSET) as usize,
        }
    }

    /// Prepares the first entry into the user through this frame, on a
    /// kernel stack that has room for one saved frame.
    pub fn exec(&self, kstack_top: VirtAddr) -> (r: UserEntry)
        requires
            kstack_top.0 >= TRAP_FRAME_SIZE,
        ensures
            r == self.spec_exec(kstack_top),
    {
        UserEntry {
            sscratch: kstack_top.as_usize(),
            sepc: self.sepc,
            sstatus: self.sstatus,
            kernel_tp_addr: kstack_top.as_usize() - TRAP_FRAME_SIZE + TP_OFFSET,
        }
    }
}

/// What is saved when a process traps: the general registers, the program
/// counter at the trap and the status register.
#[derive(Clone, Copy, Debug)]
pub struct ProcessTrapFrame {
    pub regs: GeneralRegisters,
    pub sepc: usize,
    pub sstatus: usize,
}

impl ProcessTrapFrame {
    /// The frame that `new_user` builds.
    pub open spec fn spec_new_user(entry: VirtAddr, ustack_top: VirtAddr, arg0: usize) -> Self {
        ProcessTrapFrame {
            regs: GeneralRegisters { a0: arg0, sp: ustack_top.0, ..GeneralRegisters::zeroed() },
            sepc: entry.0,
            sstatus: SSTATUS_SPIE | SSTATUS_SUM,
        }
    }

    /// The frame for the first entry into a user program: everything zero
    /// but the argument, the stack pointer, the program counter and the two
    /// status bits SPIE and SUM.
    pub fn new_user(entry: VirtAddr, ustack_top: VirtAddr, arg0: usize) -> (r: Self)
        ensures
            r == Self::spec_new_user(entry, ustack_top, arg0),
    {
        let mut regs = GeneralRegisters::default();
        regs.a0 = arg0;
        regs.sp = ustack_top.as_usize();
        ProcessTrapFrame { regs, sepc: entry.as_usize(), sstatus: SSTATUS_SPIE | SSTATUS_SUM }
    }

    /// The frame of a cloned child.
    pub open spec fn spec_new_clone(self, ustack_top: VirtAddr) -> Self {
        ProcessTrapFrame {
            regs: GeneralRegisters { sp: ustack_top.0, a0: 0, ..self.regs },
            ..self
        }
    }

    /// The frame a cloned child starts from: the parent's, on a stack of its
    /// own, with 0 as the value that the clone call returns to the child.
    pub fn new_clone(&self, ustack_top: VirtAddr) -> (r: Self)
        ensures
            r == self.spec_new_clone(ustack_top),
            r.regs.a0 == 0,
            r.regs.sp == ustack_top.0,
    {
        let mut tf = *self;
        tf.regs.sp = ustack_top.as_usize();
        tf.regs.a0 = 0;
        tf
    }

    /// The frame of a forked child.
    pub open spec fn spec_new_fork(self) -> Self {
        ProcessTrapFrame { regs: GeneralRegisters { a0: 0, ..self.regs }, ..self }
    }

    /// The frame a forked child starts from: the parent's, with 0 as the
    /// value that the fork call returns to the child.
    pub fn new_fork(&self) -> (r: Self)
        ensures
            r == self.spec_new_fork(),
            r.regs.a0 == 0,
    {
        let mut tf = *self;
        tf.regs.a0 = 0;
        tf
    }

    /// What the hart is loaded with to enter the user through this frame.
    pub open spec fn spec_exec(self, kstack_top: VirtAddr) -> UserEntry {
        UserEntry {
            sscratch: kstack_top.0,
            sepc: self.sepc,
            sstatus: self.sstatus,
            kernel_tp_addr: (kstack_top.0 - PROCESS_TRAP_FRAME_SIZE + TP_OFFSET) as usize,
        }
    }

    /// Prepares the first entry into the user through this frame, on a
    /// kernel stack that has room for one saved frame.
    pub fn exec(&self, kstack_top: VirtAddr) -> (r: UserEntry)
        requires
            kstack_top.0 >= PROCESS_TRAP_FRAME_SIZE,
        ensures
            r == self.spec_exec(kstack_top),
    {
        UserEntry {
            sscratch: kstack_top.as_usize(),
            sepc: self.sepc,
            sstatus: self.sstatus,
            kernel_tp_addr: kstack_top.as_usize() - PROCESS_TRAP_FRAME_SIZE + TP_OFFSET,
        }
    }
}

} // verus!
