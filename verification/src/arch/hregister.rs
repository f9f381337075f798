//! The bits of the delegation registers of the hypervisor extension.

use vstd::prelude::*;

verus! {

pub const HEDELEG_INST_ADDR_MISALIGN: usize = 0x1;

pub const HEDELEG_INST_ACCESSS_FAULT: usize = 0x2;

pub const HEDELEG_ILLEGAL_INST: usize = 0x4;

pub const HEDELEG_BREAKPOINT: usize = 0x8;

pub const HEDELEG_LOAD_ADDR_MISALIGNED: usize = 0x10;

pub const HEDELEG_LOAD_ACCESS_FAULT: usize = 0x20;

pub const HEDELEG_STORE_ADDR_MISALIGNED: usize = 0x40;

pub const HEDELEG_STORE_ACCESS_FAULT: usize = 0x80;

pub const HEDELEG_ENV_CALL_FROM_U_OR_VU: usize = 0x100;

pub const HEDELEG_ENV_CALL_FROM_HS: usize = 0x200;

pub const HEDELEG_ENV_CALL_FROM_VS: usize = 0x400;

pub const HEDELEG_ENV_CALL_FROM_M: usize = 0x800;

pub const HEDELEG_INST_PAGE_FAULT: usize = 0x1000;

pub const HEDELEG_LOAD_PAGE_FAULT: usize = 0x2000;

pub const HEDELEG_STORE_PAGE_FAULT: usize = 0x8000;

pub const HEDELEG_INST_GUEST_PAGE_FAULT: usize = 0x10_0000;

pub const HEDELEG_LOAD_GUEST_PAGE_FAULT: usize = 0x20_0000;

pub const HEDELEG_VIRTUAL_INST: usize = 0x40_0000;

pub const HEDELEG_STORE_GUEST_PAGE_FAULT: usize = 0x80_0000;

pub const HIDELEG_VSSIP: usize = 0x4;

pub const HIDELEG_VSTIP: usize = 0x40;

pub const HIDELEG_VSEIP: usize = 0x400;

/// What the hart's registers for the hypervisor extension are set to
/// when the hypervisor starts.
#[derive(Clone, Copy, Debug, PartialEq, Eq, Structural)]
pub struct HypervisorSetup {
    /// The exceptions that go to the guest without passing the
    /// hypervisor.
    pub hedeleg: usize,
    /// The interrupts that go to the guest without passing the
    /// hypervisor.
    pub hideleg: usize,
    /// The counters that the guest may read.
    pub hcounteren: u32,
    /// The root of the guest's own translation: none at the start.
    pub vsatp: usize,
}

/// Whether the exception with the code `code` is among `hedeleg`.
pub open spec fn delegates(hedeleg: usize, code: u64) -> bool
    recommends
        code < 32,
{
    (hedeleg as u64 >> code) & 1 == 1
}

} // verus!
