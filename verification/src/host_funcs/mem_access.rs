//! Checked access of host functions to the memory of a guest.
use crate::indices::DefinedMemoryIndex;
use crate::runtime::instance::Instance;
use crate::runtime::vmcontext::VMDefinition;
use crate::vmoffsets::Slot;
use vstd::prelude::*;

verus! {

/// The memory of a guest.
pub struct MemoryAccessor {
    base: usize,
    bytes: Vec<u8>,
}

impl View for MemoryAccessor {
    type V = Seq<u8>;

    closed spec fn view(&self) -> Seq<u8> {
        self.bytes@
    }
}

/// What the memory of a guest holds, if it has one.
pub open spec fn contents(mem: Option<MemoryAccessor>) -> Option<Seq<u8>> {
    match mem {
        Some(mem) => Some(mem@),
        None => None,
    }
}

/// Where the memory of a guest begins, if it has one.
pub open spec fn base_of(mem: Option<MemoryAccessor>) -> Option<usize> {
    match mem {
        Some(mem) => Some(mem.spec_base()),
        None => None,
    }
}

/// The definition of the first memory of an instance: the one in its context, unless the memory is
/// imported.
pub open spec fn first_memory(instance: Instance, imported: VMDefinition) -> VMDefinition {
    if instance.module.num_imported_memories == 0 {
        let offset = instance.offsets.slot_offset(Slot::Memory(0));
        VMDefinition {
            base: crate::runtime::vmcontext::word_at(instance.vmctx@, offset),
            current_length: crate::runtime::vmcontext::word_at(instance.vmctx@, offset + 8),
        }
    } else {
        imported
    }
}

/// Whether a range lies in a memory.
pub open spec fn valid_range(mem: Seq<u8>, offset: int, len: int) -> bool {
    offset + len <= mem.len()
}

/// A memory with some of its bytes replaced.
pub open spec fn bytes_written(mem: Seq<u8>, offset: int, data: Seq<u8>) -> Seq<u8> {
    mem.take(offset) + data + mem.skip(offset + data.len())
}

/// What is read where something was written is what was written, and a write leaves the rest of
/// the memory alone.
pub proof fn reads_give_back_writes(mem: Seq<u8>, offset: int, data: Seq<u8>)
    requires
        0 <= offset,
        valid_range(mem, offset, data.len() as int),
    ensures
        bytes_written(mem, offset, data).len() == mem.len(),
        bytes_written(mem, offset, data).subrange(offset, offset + data.len()) == data,
        forall|p: int|
            0 <= p < mem.len() && !(offset <= p < offset + data.len())
                ==> #[trigger] bytes_written(mem, offset, data)[p] == mem[p],
{
    assert(bytes_written(mem, offset, data).subrange(offset, offset + data.len()) =~= data);
}

impl MemoryAccessor {
    /// The first memory of an instance, defined or imported, with the bytes that it holds; nothing
    /// where the instance has no memory. What lies at the definition of an imported memory is given.
    pub fn new(instance: &Instance, imported: VMDefinition, bytes: Vec<u8>) -> (r: Option<Self>)
        requires
            instance.wf(),
            instance.module.memories@.len() > 0 ==> {
                &&& first_memory(*instance, imported).base <= usize::MAX
                &&& first_memory(*instance, imported).current_length == bytes@.len()
            },
        ensures
            r is None <==> instance.module.memories@.len() == 0,
            r matches Some(mem) ==> mem@ == bytes@ && mem.spec_base() == first_memory(
                *instance,
                imported,
            ).base,
    {
        if instance.module.memories.len() == 0 {
            return None;
        }
        let base: u64 = if instance.module.num_imported_memories == 0 {
            instance.vmctx.word(instance.offsets.vmctx_vmmemory_definition(DefinedMemoryIndex(0)))
        } else {
            imported.base
        };
        Some(Self::of_bytes(base as usize, bytes))
    }

    /// The memory that begins at an address and holds the given bytes.
    pub fn of_bytes(base: usize, bytes: Vec<u8>) -> (r: Self)
        ensures
            r@ == bytes@,
            r.spec_base() == base,
    {
        MemoryAccessor { base, bytes }
    }

    /// The address that the memory begins at.
    pub closed spec fn spec_base(self) -> usize {
        self.base
    }

    /// The address that the memory begins at.
    pub fn base(&self) -> (r: usize)
        ensures
            r == self.spec_base(),
    {
        self.base
    }

    /// The number of bytes of the memory.
    pub fn size(&self) -> (r: usize)
        ensures
            r == self@.len(),
    {
        self.bytes.len()
    }

    /// Whether a range lies in the memory.
    pub fn is_valid_range(&self, offset: u32, len: u32) -> (r: bool)
        ensures
            r == valid_range(self@, offset as int, len as int),
    {
        assert(self.bytes.len() <= usize::MAX);
        let offset: usize = offset as usize;
        let len: usize = len as usize;
        let end: usize = match offset.checked_add(len) {
            Some(end) => end,
            None => return false,
        };
        end <= self.size()
    }

    /// The bytes of a range, in place.
    pub fn get_slice(&self, offset: u32, len: u32) -> (r: Option<&[u8]>)
        ensures
            r is Some <==> valid_range(self@, offset as int, len as int),
            r matches Some(data) ==> data@ == self@.subrange(offset as int, offset + len),
    {
        if !self.is_valid_range(offset, len) {
            return None;
        }
        assert(self.bytes.len() <= usize::MAX);
        let start: usize = offset as usize;
        Some(vstd::slice::slice_subrange(self.bytes.as_slice(), start, start + len as usize))
    }

    /// The bytes of a range, to be changed in place; the rest of the memory stays.
    pub fn get_slice_mut(&mut self, offset: u32, len: u32) -> (r: Option<&mut [u8]>)
        ensures
            r is Some <==> valid_range(old(self)@, offset as int, len as int),
            r is None ==> *final(self) == *old(self),
            r matches Some(data) ==> {
                &&& data@ == old(self)@.subrange(offset as int, offset + len)
                &&& final(self)@ == old(self)@.take(offset as int) + final(data)@
                    + old(self)@.skip(offset + len)
                &&& final(self).spec_base() == old(self).spec_base()
            },
    {
        if !self.is_valid_range(offset, len) {
            return None;
        }
        let (_, rest) = self.bytes.as_mut_slice().split_at_mut(offset as usize);
        let (data, _) = rest.split_at_mut(len as usize);
        Some(data)
    }

    /// The bytes of a range.
    pub fn read_bytes(&self, offset: u32, len: u32) -> (r: Option<Vec<u8>>)
        ensures
            r is Some <==> valid_range(self@, offset as int, len as int),
            r matches Some(data) ==> data@ == self@.subrange(offset as int, offset + len),
    {
        if !self.is_valid_range(offset, len) {
            return None;
        }
        let mut data: Vec<u8> = Vec::new();
        for i in 0..len as usize
            invariant
                valid_range(self@, offset as int, len as int),
                data@ == self@.subrange(offset as int, offset + i),
        {
            assert(self.bytes.len() <= usize::MAX);
            data.push(self.bytes[offset as usize + i]);
            assert(data@ =~= self@.subrange(offset as int, offset + i + 1));
        }
        Some(data)
    }

    /// Replaces the bytes of a range, unless it does not lie in the memory.
    pub fn write_bytes(&mut self, offset: u32, data: &Vec<u8>) -> (r: bool)
        requires
            data@.len() <= u32::MAX,
        ensures
            r == valid_range(old(self)@, offset as int, data@.len() as int),
            r ==> final(self)@ == bytes_written(old(self)@, offset as int, data@),
            !r ==> final(self)@ == old(self)@,
            final(self).spec_base() == old(self).spec_base(),
    {
        if !self.is_valid_range(offset, data.len() as u32) {
            return false;
        }
        let ghost before = self@;
        assert(bytes_written(before, offset as int, data@.take(0)) =~= before);
        for i in 0..data.len()
            invariant
                before == old(self)@,
                valid_range(before, offset as int, data@.len() as int),
                self@ == bytes_written(before, offset as int, data@.take(i as int)),
                self.base == old(self).base,
        {
            assert(self.bytes.len() <= usize::MAX);
            self.bytes.set(offset as usize + i, data[i]);
            assert(self@ =~= bytes_written(before, offset as int, data@.take(i + 1)));
        }
        assert(data@.take(data@.len() as int) =~= data@);
        true
    }

    /// The 32-bit number at an offset.
    pub fn read_u32(&self, offset: u32) -> (r: Option<u32>)
        ensures
            r == u32_at(self@, offset as int),
    {
        match self.read_bytes(offset, 4) {
            Some(data) => Some(vstd::bytes::u32_from_le_bytes(data.as_slice())),
            None => None,
        }
    }

    /// Writes a 32-bit number at an offset.
    pub fn write_u32(&mut self, offset: u32, value: u32) -> (r: bool)
        ensures
            r == valid_range(old(self)@, offset as int, 4),
            r ==> final(self)@ == bytes_written(
                old(self)@,
                offset as int,
                vstd::bytes::spec_u32_to_le_bytes(value),
            ),
            !r ==> final(self)@ == old(self)@,
            final(self).spec_base() == old(self).spec_base(),
    {
        let data = vstd::bytes::u32_to_le_bytes(value);
        self.write_bytes(offset, &data)
    }

    /// Writes a 64-bit number at an offset.
    pub fn write_u64(&mut self, offset: u32, value: u64) -> (r: bool)
        ensures
            r == valid_range(old(self)@, offset as int, 8),
            r ==> final(self)@ == bytes_written(
                old(self)@,
                offset as int,
                vstd::bytes::spec_u64_to_le_bytes(value),
            ),
            !r ==> final(self)@ == old(self)@,
            final(self).spec_base() == old(self).spec_base(),
    {
        let data = vstd::bytes::u64_to_le_bytes(value);
        self.write_bytes(offset, &data)
    }
}

/// The 32-bit number at an offset of a memory.
pub open spec fn u32_at(mem: Seq<u8>, offset: int) -> Option<u32> {
    if valid_range(mem, offset, 4) {
        Some(vstd::bytes::spec_u32_from_le_bytes(mem.subrange(offset, offset + 4)))
    } else {
        None
    }
}

/// A number that was written is read back.
pub proof fn numbers_are_read_back(mem: Seq<u8>, offset: int, value: u32)
    requires
        0 <= offset,
        valid_range(mem, offset, 4),
    ensures
        u32_at(
            bytes_written(mem, offset, vstd::bytes::spec_u32_to_le_bytes(value)),
            offset,
        ) == Some(value),
{
    vstd::bytes::lemma_auto_spec_u32_to_from_le_bytes();
    reads_give_back_writes(mem, offset, vstd::bytes::spec_u32_to_le_bytes(value));
}

} // verus!
