//! What the kernel keeps for each hart beyond the registers: on RISC-V,
//! nothing.

use vstd::prelude::*;

verus! {

#[derive(Clone, Copy, Debug, PartialEq, Eq, Structural)]
pub struct ArchPerCpu;

impl ArchPerCpu {
    pub fn new() -> (r: Self)
        ensures
            r == ArchPerCpu,
    {
        ArchPerCpu
    }

    /// Sets the state up for the hart `cpu_id`: there is nothing to set.
    pub fn init(&mut self, _cpu_id: usize)
        ensures
            *final(self) == *old(self),
    {
    }
}

} // verus!
