//! Allocation of the parts of an instance.
use crate::runtime::memory::Memory;
use crate::runtime::table::Table;
use crate::runtime::vmcontext::OwnedVMContext;
use crate::types::{MemoryDesc, TableDesc};
use crate::vmoffsets::VMOffsets;
use vstd::prelude::*;

verus! {

/// An allocator that gives every request its own memory, and never takes it back.
#[derive(Debug, Clone, Copy, PartialEq, Eq, Structural)]
pub struct PlaceholderAllocatorDontUse {
    pub host_page_size: usize,
}

/// A number of bytes, if it can be an address.
pub open spec fn as_usize(n: int) -> Option<usize> {
    if n <= usize::MAX {
        Some(n as usize)
    } else {
        None
    }
}

impl PlaceholderAllocatorDontUse {
    /// A zeroed context at an address.
    pub fn allocate_vmctx(&self, base: usize, plan: &VMOffsets) -> (r: OwnedVMContext)
        requires
            base + plan.size <= usize::MAX,
        ensures
            r.wf(),
            r.spec_base() == base,
            r@ == Seq::new(plan.size as nat, |i: int| 0u8),
    {
        OwnedVMContext::try_new(base, plan)
    }

    /// A memory, whose smallest size must be addressable. A largest size that is not addressable
    /// is no limit.
    pub fn allocate_memory(&self, memory_desc: &MemoryDesc) -> (r: Memory)
        requires
            memory_desc.wf(),
            self.host_page_size > 0,
            memory_desc.offset_guard_size + self.host_page_size - 1 <= usize::MAX,
            memory_desc.spec_minimum_bytes() <= usize::MAX,
            memory_desc.spec_minimum_bytes() <= u64::MAX,
        ensures
            r.base == crate::runtime::mmap::DANGLING,
            r.mapped@ == Seq::<u8>::empty(),
            r.len == memory_desc.spec_minimum_bytes(),
            r.maximum == (if memory_desc.spec_maximum_bytes() <= u64::MAX {
                as_usize(memory_desc.spec_maximum_bytes())
            } else {
                None
            }),
            r.page_size_log2 == memory_desc.page_size_log2,
            r.offset_guard_size == crate::runtime::mmap::rounded_up(
                memory_desc.offset_guard_size as int,
                self.host_page_size as int,
            ),
    {
        let minimum: usize = match memory_desc.minimum_byte_size() {
            Ok(m) => m as usize,
            Err(_) => {
                assert(false);
                0
            },
        };
        let maximum: Option<usize> = match memory_desc.maximum_byte_size() {
            Ok(m) => if m <= usize::MAX as u64 {
                Some(m as usize)
            } else {
                None
            },
            Err(_) => None,
        };
        Memory::try_new(memory_desc, minimum, maximum, self.host_page_size)
    }

    /// A table in zeroed memory at an address.
    pub fn allocate_table(&self, base: usize, table_desc: &TableDesc) -> (r: Table)
        requires
            crate::runtime::table::reserve_size(Self::table_maximum(*table_desc)) > 0
                ==> table_desc.minimum <= crate::runtime::table::reserve_size(
                Self::table_maximum(*table_desc),
            ),
        ensures
            r.elements@.wf(),
            r.elements@.len == 0,
            r.elements@.mapped == Seq::new(
                crate::runtime::table::reserve_size(Self::table_maximum(*table_desc)) as nat,
                |i: int| None::<usize>,
            ),
            r.elements@.base == (if crate::runtime::table::reserve_size(
                Self::table_maximum(*table_desc),
            ) > 0 {
                base
            } else {
                crate::runtime::mmap::DANGLING
            }),
            r.maximum == Self::table_maximum(*table_desc),
    {
        let maximum: Option<usize> = match table_desc.maximum {
            Some(m) => if m <= usize::MAX as u64 {
                Some(m as usize)
            } else {
                None
            },
            None => None,
        };
        Table::try_new(base, table_desc, maximum)
    }

    /// The number of elements that a table can grow to, if it is addressable.
    pub open spec fn table_maximum(desc: TableDesc) -> Option<usize> {
        match desc.maximum {
            Some(m) => as_usize(m as int),
            None => None,
        }
    }
}

} // verus!
