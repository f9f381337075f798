//! The RISC-V side of the kernel core.

use vstd::prelude::*;

pub mod context;
pub mod frame;
pub mod hregister;
pub mod percpu;
pub mod trap;

pub use self::context::{TaskContext, ProcessContext};
pub use self::frame::{ProcessTrapFrame, TrapFrame};
pub use self::percpu::ArchPerCpu;

use self::hregister::{
    delegates,
    HypervisorSetup,
    HEDELEG_BREAKPOINT,
    HEDELEG_ENV_CALL_FROM_U_OR_VU,
    HEDELEG_INST_ADDR_MISALIGN,
    HEDELEG_INST_PAGE_FAULT,
    HEDELEG_LOAD_PAGE_FAULT,
    HEDELEG_STORE_PAGE_FAULT,
    HIDELEG_VSEIP,
    HIDELEG_VSSIP,
    HIDELEG_VSTIP,
};

verus! {

/// What the registers of the hypervisor extension are set to at the
/// start. Misaligned instruction fetches, breakpoints, environment calls
/// of user level and page faults of the guest's own translation go to the
/// guest, and so do its three interrupts; the guest may read every
/// counter; it starts without a translation of its own.
///
/// The environment call of the guest's supervisor and the guest page
/// faults are not among them: those the hypervisor handles.
pub fn init_hypervisor() -> (r: HypervisorSetup)
    ensures
        r.hedeleg == HEDELEG_INST_ADDR_MISALIGN | HEDELEG_BREAKPOINT
            | HEDELEG_ENV_CALL_FROM_U_OR_VU | HEDELEG_INST_PAGE_FAULT | HEDELEG_LOAD_PAGE_FAULT
            | HEDELEG_STORE_PAGE_FAULT,
        r.hedeleg == 0xb109,
        r.hideleg == HIDELEG_VSEIP | HIDELEG_VSSIP | HIDELEG_VSTIP,
        r.hideleg == 0x444,
        r.hcounteren == 0xffff_ffff,
        r.vsatp == 0,
        forall|code: u64|
            code < 32 ==> (#[trigger] delegates(r.hedeleg, code) <==> code == 0 || code == 3
                || code == 8 || code == 12 || code == 13 || code == 15),
{
    let hedeleg = HEDELEG_INST_ADDR_MISALIGN | HEDELEG_BREAKPOINT | HEDELEG_ENV_CALL_FROM_U_OR_VU
        | HEDELEG_INST_PAGE_FAULT | HEDELEG_LOAD_PAGE_FAULT | HEDELEG_STORE_PAGE_FAULT;
    let hideleg = HIDELEG_VSEIP | HIDELEG_VSSIP | HIDELEG_VSTIP;
    assert(0x1usize | 0x8usize | 0x100usize | 0x1000usize | 0x2000usize | 0x8000usize == 0xb109usize)
        by (bit_vector);
    assert(0x400usize | 0x4usize | 0x40usize == 0x444usize) by (bit_vector);
    assert forall|code: u64| code < 32 implies (#[trigger] delegates(0xb109usize, code) <==> code
        == 0 || code == 3 || code == 8 || code == 12 || code == 13 || code == 15) by {
        assert(code < 32 ==> (((0xb109u64 >> code) & 1 == 1) <==> code == 0 || code == 3 || code
            == 8 || code == 12 || code == 13 || code == 15)) by (bit_vector);
    }
    HypervisorSetup { hedeleg, hideleg, hcounteren: 0xffff_ffff, vsatp: 0 }
}

} // verus!
