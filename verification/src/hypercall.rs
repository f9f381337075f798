//! The services that a guest may ask of the hypervisor.
//!
//! A hypercall is served with interrupts enabled, so that other tasks are
//! not starved while it runs, and the interrupt state that the trap found
//! is restored when it returns. The state is the `irqs_enabled` that the
//! caller hands in and applies to the hart.

use vstd::prelude::*;
use crate::arch::frame::TrapFrame;
use crate::arch::trap::FAULT_EXIT_CODE;

verus! {

/// Replace the program of the calling guest. Reserved: it answers 0 and
/// does nothing yet.
pub const HYPERCALL_EXEC: usize = 59;

/// How a hypercall ends.
#[derive(Clone, Copy, Debug, PartialEq, Eq, Structural)]
pub enum HypercallOutcome {
    /// The guest resumes with this value in its return-value register.
    Return(isize),
    /// The calling task is terminated with this exit code; the guest gets
    /// no return value.
    Exit(i32),
}

/// The interrupt state to go back to when a hypercall returns.
#[derive(Clone, Copy, Debug)]
pub struct IrqGuard {
    prior: bool,
}

impl IrqGuard {
    /// Whether interrupts were enabled before the hypercall.
    pub closed spec fn prior(self) -> bool {
        self.prior
    }

    /// Enables interrupts for the time of a hypercall and remembers how
    /// they were.
    pub fn enter(irqs_enabled: &mut bool) -> (guard: Self)
        ensures
            *final(irqs_enabled),
            guard.prior() == *old(irqs_enabled),
    {
        let prior = *irqs_enabled;
        *irqs_enabled = true;
        IrqGuard { prior }
    }

    /// Puts interrupts back as they were before the hypercall.
    pub fn exit(self, irqs_enabled: &mut bool)
        ensures
            *final(irqs_enabled) == self.prior(),
    {
        *irqs_enabled = self.prior;
    }
}

/// How the hypercall with a given identifier ends.
pub open spec fn spec_hypercall(hypercall_id: usize) -> HypercallOutcome {
    if hypercall_id == HYPERCALL_EXEC {
        HypercallOutcome::Return(0)
    } else {
        HypercallOutcome::Exit(FAULT_EXIT_CODE)
    }
}

/// Serves one hypercall. It runs with interrupts enabled.
pub fn serve(
    irqs_enabled: bool,
    hypercall_id: usize,
    arg0: usize,
    arg1: usize,
    arg2: usize,
) -> (r: HypercallOutcome)
    requires
        irqs_enabled,
    ensures
        r == spec_hypercall(hypercall_id),
{
    if hypercall_id == HYPERCALL_EXEC {
        HypercallOutcome::Return(0)
    } else {
        HypercallOutcome::Exit(FAULT_EXIT_CODE)
    }
}

/// Serves the hypercall `hypercall_id` of the guest whose frame is `tf`.
/// A known identifier gives the value to return to the guest; an unknown
/// one ends the calling task with a negative exit code. The frame is left
/// as it is.
///
/// Interrupts are enabled while the call is served. When it returns to
/// the guest, they are as they were before; when it ends the task, they
/// stay enabled, for the task never comes back here.
pub fn hypercall(
    tf: &mut TrapFrame,
    irqs_enabled: &mut bool,
    hypercall_id: usize,
    arg0: usize,
    arg1: usize,
    arg2: usize,
) -> (r: HypercallOutcome)
    ensures
        r == spec_hypercall(hypercall_id),
        *final(tf) == *old(tf),
        r matches HypercallOutcome::Exit(code) ==> code < 0 && *final(irqs_enabled),
        r is Return ==> *final(irqs_enabled) == *old(irqs_enabled),
{
    let guard = IrqGuard::enter(irqs_enabled);
    let ret = serve(*irqs_enabled, hypercall_id, arg0, arg1, arg2);
    match ret {
        HypercallOutcome::Return(_) => {
            guard.exit(irqs_enabled);
        },
        HypercallOutcome::Exit(_) => {},
    }
    ret
}

} // verus!
