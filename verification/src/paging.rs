//! Memory for page tables: the flags of the regions that the platform
//! reports and of the mappings that a page table holds, and the frames
//! that a page table is built from.

use vstd::prelude::*;
use crate::mm::{PhysAddr, VirtAddr};

verus! {

/// Bytes in a page.
pub const PAGE_SIZE_4K: usize = 0x1000;

/// The largest alignment that the allocator of pages serves: 1 GiB.
pub const MAX_ALIGN_1GB: usize = 0x4000_0000;

/// Whether `n` is a power of two: it is not 0, and has one bit set.
pub open spec fn spec_is_power_of_two(n: usize) -> bool {
    n > 0 && n & ((n - 1) as usize) == 0
}

/// Asks the global allocator for `num_pages` pages in a row, aligned to
/// `align_pow2` bytes, with `axalloc::GlobalAllocator::alloc_pages`, and
/// answers the address of the first when it got them. Whether it gets
/// them depends on what was handed to the allocator and what was taken
/// from it. It never gets no pages at all; it gets pages only for an
/// alignment of a power of two of pages, up to 1 GiB; and what it gets
/// starts at the start of a page.
#[verifier::external_body]
fn alloc_pages(num_pages: usize, align_pow2: usize) -> (r: Option<usize>)
    ensures
        num_pages == 0 ==> r is None,
        r is Some ==> align_pow2 <= MAX_ALIGN_1GB && align_pow2 % PAGE_SIZE_4K == 0
            && spec_is_power_of_two(align_pow2 / PAGE_SIZE_4K),
        r matches Some(addr) ==> addr % PAGE_SIZE_4K == 0,
{
    axalloc::global_allocator().alloc_pages(
        num_pages,
        align_pow2,
        axalloc::UsageKind::PageTable,
    ).ok()
}

/// The physical address of the virtual address `vaddr`, where all of
/// physical memory is mapped `offset` bytes up: `offset` bytes down, if
/// `vaddr` lies in that mapping.
pub open spec fn spec_virt_to_phys(vaddr: VirtAddr, offset: usize) -> Option<PhysAddr> {
    if vaddr.0 >= offset {
        Some(PhysAddr((vaddr.0 - offset) as usize))
    } else {
        None
    }
}

/// The physical address of a virtual address in the mapping of all
/// physical memory, which lies `offset` bytes up.
pub fn virt_to_phys(vaddr: VirtAddr, offset: usize) -> (r: Option<PhysAddr>)
    ensures
        r == spec_virt_to_phys(vaddr, offset),
{
    if vaddr.as_usize() >= offset {
        Some(PhysAddr::new(vaddr.as_usize() - offset))
    } else {
        None
    }
}

/// The frames that stand for what the allocator answered: the physical
/// address of the pages it gave, or nothing when it gave none or gave
/// pages outside the mapping of physical memory.
pub open spec fn spec_frames(allocated: Option<usize>, offset: usize) -> Option<PhysAddr> {
    match allocated {
        Some(vaddr) => spec_virt_to_phys(VirtAddr(vaddr), offset),
        None => None,
    }
}

/// The frames of page tables, from the global allocator.
#[derive(Clone, Copy, Debug)]
pub struct PagingIfImpl;

impl PagingIfImpl {
    /// The frames that stand for what the allocator answered.
    pub fn frames(allocated: Option<usize>, offset: usize) -> (r: Option<PhysAddr>)
        ensures
            r == spec_frames(allocated, offset),
    {
        match allocated {
            Some(vaddr) => virt_to_phys(VirtAddr::new(vaddr), offset),
            None => None,
        }
    }

    /// Whether `page_num` frames in a row, aligned to their own size, can be
    /// asked of the allocator at all: there is at least one, their number
    /// is a power of two, and together they take at most 1 GiB.
    pub open spec fn may_alloc_frames(page_num: usize) -> bool {
        spec_is_power_of_two(page_num) && page_num * PAGE_SIZE_4K <= MAX_ALIGN_1GB
    }

    /// Asks the allocator for `page_num` frames in a row, aligned to their
    /// own size, and answers the physical address of the first: the
    /// address that the allocator gave, `offset` bytes down.
    ///
    /// Frames come only where they can be asked for, and where the
    /// allocator gave pages in the mapping of physical memory. What comes
    /// is the physical address of the start of a page of that mapping.
    /// Whether frames come where they can is for the allocator to say.
    pub fn alloc_frames(page_num: usize, offset: usize) -> (r: Option<PhysAddr>)
        ensures
            !Self::may_alloc_frames(page_num) ==> r is None,
            r matches Some(paddr) ==> {
                &&& paddr.0 + offset <= usize::MAX
                &&& (paddr.0 + offset) % (PAGE_SIZE_4K as int) == 0
                &&& r == spec_frames(Some((paddr.0 + offset) as usize), offset)
            },
    {
        if page_num > usize::MAX / PAGE_SIZE_4K {
            return None;
        }
        let align = PAGE_SIZE_4K * page_num;
        let allocated = alloc_pages(page_num, align);
        assert(align / PAGE_SIZE_4K == page_num);
        Self::frames(allocated, offset)
    }
}

/// What a region of physical memory allows, as a set of bits.
#[derive(Clone, Copy, Debug, PartialEq, Eq, Structural)]
pub struct MemRegionFlags {
    pub bits: usize,
}

/// What a mapping in a page table allows, as a set of bits.
#[derive(Clone, Copy, Debug, PartialEq, Eq, Structural)]
pub struct MappingFlags {
    pub bits: usize,
}

impl MemRegionFlags {
    pub const READ: usize = 0x1;

    pub const WRITE: usize = 0x2;

    pub const EXECUTE: usize = 0x4;

    pub const DEVICE: usize = 0x10;

    pub const UNCACHED: usize = 0x20;

    pub const RESERVED: usize = 0x40;

    pub const FREE: usize = 0x80;

    pub open spec fn spec_contains(self, flag: usize) -> bool {
        self.bits & flag == flag
    }

    /// Whether all bits of `flag` are set.
    pub fn contains(&self, flag: usize) -> (r: bool)
        ensures
            r == self.spec_contains(flag),
    {
        self.bits & flag == flag
    }
}

impl MappingFlags {
    pub const READ: usize = 0x1;

    pub const WRITE: usize = 0x2;

    pub const EXECUTE: usize = 0x4;

    pub const USER: usize = 0x8;

    pub const DEVICE: usize = 0x10;

    pub const UNCACHED: usize = 0x20;

    pub fn empty() -> (r: Self)
        ensures
            r.bits == 0,
    {
        MappingFlags { bits: 0 }
    }

    pub open spec fn spec_contains(self, flag: usize) -> bool {
        self.bits & flag == flag
    }

    /// Whether all bits of `flag` are set.
    pub fn contains(&self, flag: usize) -> (r: bool)
        ensures
            r == self.spec_contains(flag),
    {
        self.bits & flag == flag
    }
}

/// The flags of a mapping of a region: readable, writable, executable
/// and device memory carry over, and nothing else.
pub open spec fn spec_mapping_flags(f: MemRegionFlags) -> MappingFlags {
    MappingFlags { bits: f.bits & 0x17 }
}

impl From<MemRegionFlags> for MappingFlags {
    fn from(f: MemRegionFlags) -> (r: Self) {
        let mut ret = MappingFlags::empty();
        if f.contains(MemRegionFlags::READ) {
            ret.bits = ret.bits | MappingFlags::READ;
        }
        if f.contains(MemRegionFlags::WRITE) {
            ret.bits = ret.bits | MappingFlags::WRITE;
        }
        if f.contains(MemRegionFlags::EXECUTE) {
            ret.bits = ret.bits | MappingFlags::EXECUTE;
        }
        if f.contains(MemRegionFlags::DEVICE) {
            ret.bits = ret.bits | MappingFlags::DEVICE;
        }
        proof {
            let b = f.bits;
            let r1: usize = if b & 0x1 == 0x1 {
                0usize | 0x1
            } else {
                0usize
            };
            let r2: usize = if b & 0x2 == 0x2 {
                r1 | 0x2
            } else {
                r1
            };
            let r3: usize = if b & 0x4 == 0x4 {
                r2 | 0x4
            } else {
                r2
            };
            let r4: usize = if b & 0x10 == 0x10 {
                r3 | 0x10
            } else {
                r3
            };
            assert(ret.bits == r4);
            assert(r4 == b & 0x17) by (bit_vector)
                requires
                    r1 == (if b & 0x1 == 0x1 {
                        0usize | 0x1
                    } else {
                        0usize
                    }),
                    r2 == (if b & 0x2 == 0x2 {
                        r1 | 0x2
                    } else {
                        r1
                    }),
                    r3 == (if b & 0x4 == 0x4 {
                        r2 | 0x4
                    } else {
                        r2
                    }),
                    r4 == (if b & 0x10 == 0x10 {
                        r3 | 0x10
                    } else {
                        r3
                    }),
            ;
        }
        ret
    }
}

impl vstd::std_specs::convert::FromSpecImpl<MemRegionFlags> for MappingFlags {
    open spec fn obeys_from_spec() -> bool {
        true
    }

    open spec fn from_spec(f: MemRegionFlags) -> Self {
        spec_mapping_flags(f)
    }
}

} // verus!
