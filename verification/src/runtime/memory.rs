//! Linear memories.
use crate::runtime::mmap::{round_usize_up_to_host_pages, DANGLING};
use crate::runtime::vmcontext::VMDefinition;
use crate::types::MemoryDesc;
use vstd::prelude::*;

verus! {

/// A linear memory.
pub struct Memory {
    /// The address that the memory begins at.
    pub base: usize,
    /// What is mapped of the memory.
    pub mapped: Vec<u8>,
    /// The current size, in bytes.
    pub len: usize,
    /// The size that the memory can grow to, in bytes.
    pub maximum: Option<usize>,
    pub page_size_log2: u8,
    /// The number of guard bytes behind the memory, in whole pages of the host.
    pub offset_guard_size: usize,
}

impl Memory {
    /// A memory of which nothing is mapped yet.
    pub fn try_new(
        desc: &MemoryDesc,
        actual_minimum_bytes: usize,
        actual_maximum_bytes: Option<usize>,
        host_page_size: usize,
    ) -> (r: Self)
        requires
            host_page_size > 0,
            desc.offset_guard_size + host_page_size - 1 <= usize::MAX,
        ensures
            r.base == DANGLING,
            r.mapped@ == Seq::<u8>::empty(),
            r.len == actual_minimum_bytes,
            r.maximum == actual_maximum_bytes,
            r.page_size_log2 == desc.page_size_log2,
            r.offset_guard_size == crate::runtime::mmap::rounded_up(
                desc.offset_guard_size as int,
                host_page_size as int,
            ),
    {
        let offset_guard_bytes: usize = round_usize_up_to_host_pages(
            desc.offset_guard_size as usize,
            host_page_size,
        );
        Memory {
            base: DANGLING,
            mapped: Vec::new(),
            len: actual_minimum_bytes,
            maximum: actual_maximum_bytes,
            page_size_log2: desc.page_size_log2,
            offset_guard_size: offset_guard_bytes,
        }
    }

    /// Replaces the bytes of a mapped range.
    pub fn with_user_slice_mut(&mut self, start: usize, data: &Vec<u8>)
        requires
            start + data@.len() <= old(self).mapped@.len(),
        ensures
            *final(self) == (Memory { mapped: final(self).mapped, ..*old(self) }),
            final(self).mapped@ == crate::host_funcs::mem_access::bytes_written(
                old(self).mapped@,
                start as int,
                data@,
            ),
    {
        assert(self.mapped.len() <= usize::MAX);
        let ghost before = self.mapped@;
        assert(crate::host_funcs::mem_access::bytes_written(before, start as int, data@.take(0))
            =~= before);
        for i in 0..data.len()
            invariant
                before == old(self).mapped@,
                start + data@.len() <= before.len() <= usize::MAX,
                *self == (Memory { mapped: self.mapped, ..*old(self) }),
                self.mapped@ == crate::host_funcs::mem_access::bytes_written(
                    before,
                    start as int,
                    data@.take(i as int),
                ),
        {
            self.mapped.set(start + i, data[i]);
            assert(self.mapped@ =~= crate::host_funcs::mem_access::bytes_written(
                before,
                start as int,
                data@.take(i + 1),
            ));
        }
        assert(data@.take(data@.len() as int) =~= data@);
    }

    /// What compiled code sees of the memory: where it begins, and its current size.
    pub open spec fn definition(self) -> VMDefinition {
        VMDefinition { base: self.base as u64, current_length: self.len as u64 }
    }

    /// What compiled code sees of the memory.
    pub fn as_vmmemory_definition(&self) -> (r: VMDefinition)
        ensures
            r == self.definition(),
    {
        VMDefinition { base: self.base as u64, current_length: self.len as u64 }
    }
}

} // verus!
