//! Classification of traps: from the cause register and the frame saved
//! at the trap to what the kernel does next.
//!
//! The hart is RV64: `scause` has 64 bits, the highest of which tells an
//! interrupt from an exception.

use vstd::prelude::*;
use super::frame::{TrapFrame, GeneralRegisters, HSTATUS_SPV, SSTATUS_SPP};

verus! {

/// Width of one instruction, by which the program counter moves past an
/// environment call.
pub const INSTRUCTION_WIDTH: usize = 4;

/// The exit code of a task that the kernel terminates for a fault.
pub const FAULT_EXIT_CODE: i32 = -1;

/// The exceptions that the kernel tells apart.
#[derive(Clone, Copy, Debug, PartialEq, Eq, Structural)]
pub enum Exception {
    UserEnvCall,
    VirtualSupervisorEnvCall,
    InstructionPageFault,
    LoadPageFault,
    StorePageFault,
    InstructionGuestPageFault,
    LoadGuestPageFault,
    VirtualInstruction,
    StoreGuestPageFault,
    Unknown,
}

/// The cause of a trap.
#[derive(Clone, Copy, Debug, PartialEq, Eq, Structural)]
pub enum Trap {
    /// An interrupt, with its code.
    Interrupt(u64),
    Exception(Exception),
}

/// Why a trap cannot be handled.
#[derive(Clone, Copy, Debug, PartialEq, Eq, Structural)]
pub enum FatalTrap {
    /// An environment call of user level arrived from a guest: the guest
    /// has to handle it itself.
    GuestEnvCall,
    /// The kernel itself took a page fault.
    KernelPageFault,
    /// A cause that the kernel does not handle.
    Unsupported,
}

/// What the kernel does for a trap.
#[derive(Clone, Copy, Debug, PartialEq, Eq, Structural)]
pub enum TrapAction {
    /// Dispatch a system call; its result goes into the frame.
    Syscall { id: usize, arg0: usize, arg1: usize, arg2: usize },
    /// Dispatch a hypercall; its result goes into the frame.
    Hypercall { id: usize, arg0: usize, arg1: usize, arg2: usize },
    /// Terminate the current task with this exit code, after a fault at
    /// `stval`.
    Kill { exit_code: i32, stval: usize, code: u64 },
    /// Hand the interrupt to the interrupt router, with the cause register
    /// as it was read.
    Interrupt { scause: usize },
    /// Stop the system.
    Fatal(FatalTrap),
}

/// Whether the cause register names an interrupt: its highest bit.
pub open spec fn spec_is_interrupt(scause: usize) -> bool {
    (scause as u64) >> 63 == 1
}

/// The code in the cause register: all but its highest bit.
pub open spec fn spec_code(scause: usize) -> u64 {
    (scause as u64) & 0x7fff_ffff_ffff_ffff
}

/// The exception with a given code.
pub open spec fn spec_exception(code: u64) -> Exception {
    if code == 8 {
        Exception::UserEnvCall
    } else if code == 10 {
        Exception::VirtualSupervisorEnvCall
    } else if code == 12 {
        Exception::InstructionPageFault
    } else if code == 13 {
        Exception::LoadPageFault
    } else if code == 15 {
        Exception::StorePageFault
    } else if code == 20 {
        Exception::InstructionGuestPageFault
    } else if code == 21 {
        Exception::LoadGuestPageFault
    } else if code == 22 {
        Exception::VirtualInstruction
    } else if code == 23 {
        Exception::StoreGuestPageFault
    } else {
        Exception::Unknown
    }
}

/// The cause that a value of the cause register stands for.
pub open spec fn spec_cause(scause: usize) -> Trap {
    if spec_is_interrupt(scause) {
        Trap::Interrupt(spec_code(scause))
    } else {
        Trap::Exception(spec_exception(spec_code(scause)))
    }
}

/// Decodes the cause register.
pub fn cause(scause: usize) -> (r: Trap)
    ensures
        r == spec_cause(scause),
{
    let bits: u64 = scause as u64;
    let code: u64 = bits & 0x7fff_ffff_ffff_ffff;
    if bits >> 63 == 1 {
        Trap::Interrupt(code)
    } else {
        let e = if code == 8 {
            Exception::UserEnvCall
        } else if code == 10 {
            Exception::VirtualSupervisorEnvCall
        } else if code == 12 {
            Exception::InstructionPageFault
        } else if code == 13 {
            Exception::LoadPageFault
        } else if code == 15 {
            Exception::StorePageFault
        } else if code == 20 {
            Exception::InstructionGuestPageFault
        } else if code == 21 {
            Exception::LoadGuestPageFault
        } else if code == 22 {
            Exception::VirtualInstruction
        } else if code == 23 {
            Exception::StoreGuestPageFault
        } else {
            Exception::Unknown
        };
        Trap::Exception(e)
    }
}

/// Whether the trapped context ran at supervisor level: the SPP bit of the
/// saved status.
pub open spec fn spec_from_supervisor(tf: TrapFrame) -> bool {
    tf.sstatus & SSTATUS_SPP != 0
}

/// The frame with the program counter moved past the environment call.
pub open spec fn spec_advance(tf: TrapFrame) -> TrapFrame {
    TrapFrame { sepc: tf.sepc.wrapping_add(INSTRUCTION_WIDTH), ..tf }
}

/// What the kernel does for a trap with cause `scause`, taken with the
/// frame `tf` and the trap value `stval`.
///
/// - An environment call of user level is a system call, unless the
///   trapped context was a guest: then it is fatal.
/// - An environment call of a guest's supervisor is a hypercall.
/// - A page fault terminates the current task when it came from a guest or
///   from user level, and is fatal when the kernel itself faulted.
/// - A guest page fault terminates the current task.
/// - An interrupt goes to the interrupt router, whatever it interrupted.
/// - Anything else is fatal.
pub open spec fn spec_action(tf: TrapFrame, scause: usize, stval: usize) -> TrapAction {
    let regs = tf.regs;
    match spec_cause(scause) {
        Trap::Interrupt(_) => TrapAction::Interrupt { scause },
        Trap::Exception(Exception::UserEnvCall) => if tf.spec_from_guest() {
            TrapAction::Fatal(FatalTrap::GuestEnvCall)
        } else {
            TrapAction::Syscall { id: regs.a7, arg0: regs.a0, arg1: regs.a1, arg2: regs.a2 }
        },
        Trap::Exception(Exception::VirtualSupervisorEnvCall) => TrapAction::Hypercall {
            id: regs.a7,
            arg0: regs.a0,
            arg1: regs.a1,
            arg2: regs.a2,
        },
        Trap::Exception(Exception::LoadPageFault)
        | Trap::Exception(Exception::StorePageFault)
        | Trap::Exception(Exception::InstructionPageFault) => if tf.spec_from_guest()
            || !spec_from_supervisor(tf) {
            TrapAction::Kill { exit_code: FAULT_EXIT_CODE, stval, code: spec_code(scause) }
        } else {
            TrapAction::Fatal(FatalTrap::KernelPageFault)
        },
        Trap::Exception(Exception::LoadGuestPageFault)
        | Trap::Exception(Exception::StoreGuestPageFault)
        | Trap::Exception(Exception::InstructionGuestPageFault) => TrapAction::Kill {
            exit_code: FAULT_EXIT_CODE,
            stval,
            code: spec_code(scause),
        },
        _ => TrapAction::Fatal(FatalTrap::Unsupported),
    }
}

/// Whether an action dispatches a call whose result goes into the frame.
pub open spec fn is_call(action: TrapAction) -> bool {
    action is Syscall || action is Hypercall
}

/// The frame after the trap has been classified: the program counter has
/// moved past an environment call that is dispatched, and nothing else
/// has changed.
pub open spec fn spec_frame_after(tf: TrapFrame, scause: usize, stval: usize) -> TrapFrame {
    if is_call(spec_action(tf, scause, stval)) {
        spec_advance(tf)
    } else {
        tf
    }
}

/// Classifies a trap and prepares the frame for what follows. For a system
/// call or a hypercall the program counter is moved past the calling
/// instruction; `finish_call` then stores the result.
///
/// A system call is dispatched only for a frame that was not trapped from
/// a guest.
pub fn riscv_trap_handler(tf: &mut TrapFrame, scause: usize, stval: usize) -> (action: TrapAction)
    ensures
        action == spec_action(*old(tf), scause, stval),
        *final(tf) == spec_frame_after(*old(tf), scause, stval),
        action is Syscall ==> !old(tf).spec_from_guest(),
        old(tf).spec_from_guest() && spec_cause(scause) == Trap::Exception(Exception::UserEnvCall)
            ==> action == TrapAction::Fatal(FatalTrap::GuestEnvCall),
{
    let code: u64 = (scause as u64) & 0x7fff_ffff_ffff_ffff;
    match cause(scause) {
        Trap::Interrupt(_) => TrapAction::Interrupt { scause },
        Trap::Exception(Exception::UserEnvCall) => {
            if tf.from_guest() {
                TrapAction::Fatal(FatalTrap::GuestEnvCall)
            } else {
                tf.sepc = tf.sepc.wrapping_add(INSTRUCTION_WIDTH);
                TrapAction::Syscall {
                    id: tf.regs.a7,
                    arg0: tf.regs.a0,
                    arg1: tf.regs.a1,
                    arg2: tf.regs.a2,
                }
            }
        },
        Trap::Exception(Exception::VirtualSupervisorEnvCall) => {
            tf.sepc = tf.sepc.wrapping_add(INSTRUCTION_WIDTH);
            TrapAction::Hypercall {
                id: tf.regs.a7,
                arg0: tf.regs.a0,
                arg1: tf.regs.a1,
                arg2: tf.regs.a2,
            }
        },
        Trap::Exception(Exception::LoadPageFault)
        | Trap::Exception(Exception::StorePageFault)
        | Trap::Exception(Exception::InstructionPageFault) => {
            if tf.from_guest() || tf.sstatus & SSTATUS_SPP == 0 {
                TrapAction::Kill { exit_code: FAULT_EXIT_CODE, stval, code }
            } else {
                TrapAction::Fatal(FatalTrap::KernelPageFault)
            }
        },
        Trap::Exception(Exception::LoadGuestPageFault)
        | Trap::Exception(Exception::StoreGuestPageFault)
        | Trap::Exception(Exception::InstructionGuestPageFault) => {
            TrapAction::Kill { exit_code: FAULT_EXIT_CODE, stval, code }
        },
        _ => TrapAction::Fatal(FatalTrap::Unsupported),
    }
}

/// Stores the result of a dispatched call in the frame: the value that the
/// caller finds in its return-value register.
pub fn finish_call(tf: &mut TrapFrame, ret: isize)
    ensures
        *final(tf) == (TrapFrame {
            regs: GeneralRegisters { a0: ret as usize, ..old(tf).regs },
            ..*old(tf)
        }),
{
    tf.set_return_value(ret as usize);
}

/// No trap from a guest is ever dispatched as a system call, whatever its
/// cause and whatever else the frame holds.
pub proof fn lemma_guest_never_reaches_syscall(tf: TrapFrame, scause: usize, stval: usize)
    requires
        tf.spec_from_guest(),
    ensures
        !(spec_action(tf, scause, stval) is Syscall),
{
}

} // verus!
