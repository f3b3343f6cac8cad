//! The context that compiled code works on.
use crate::vmoffsets::VMOffsets;
use vstd::prelude::*;

verus! {

/// A table or a memory, as compiled code sees it.
#[derive(Debug, Clone, Copy, PartialEq, Eq, Structural)]
pub struct VMDefinition {
    pub base: u64,
    pub current_length: u64,
}

/// An imported function.
#[derive(Debug, Clone, Copy, PartialEq, Eq, Structural)]
pub struct VMFunctionImport {
    pub wasm_call: u64,
    pub array_call: u64,
    pub vmctx: u64,
}

/// An imported table, memory or global: its definition, and the context that owns it.
#[derive(Debug, Clone, Copy, PartialEq, Eq, Structural)]
pub struct VMImport {
    pub from: u64,
    pub vmctx: u64,
}

/// A function reference.
#[derive(Debug, Clone, Copy, PartialEq, Eq, Structural)]
pub struct VMFuncRef {
    pub array_call: u64,
    pub wasm_call: u64,
    pub vmctx: u64,
    pub type_index: u32,
}

/// The 64-bit word at an offset of a context.
pub open spec fn word_at(mem: Seq<u8>, offset: int) -> u64 {
    vstd::bytes::spec_u64_from_le_bytes(mem.subrange(offset, offset + 8))
}

/// Whether words lie at an offset of a context.
pub open spec fn words_at(mem: Seq<u8>, offset: int, words: Seq<u64>) -> bool {
    forall|k: int| 0 <= k < words.len() ==> #[trigger] words[k] == word_at(mem, offset + 8 * k)
}

/// Whether two contexts agree outside a range.
pub open spec fn same_outside(a: Seq<u8>, b: Seq<u8>, offset: int, len: int) -> bool {
    &&& a.len() == b.len()
    &&& forall|p: int|
        0 <= p < a.len() && !(offset <= p < offset + len) ==> #[trigger] a[p] == b[p]
}

/// Words outside a range are the same in contexts that agree there.
pub proof fn lemma_words_kept(
    a: Seq<u8>,
    b: Seq<u8>,
    offset: int,
    len: int,
    at: int,
    words: Seq<u64>,
)
    requires
        same_outside(a, b, offset, len),
        0 <= at,
        at + 8 * words.len() <= a.len(),
        at + 8 * words.len() <= offset || offset + len <= at,
        words_at(a, at, words),
    ensures
        words_at(b, at, words),
{
    assert forall|k: int| 0 <= k < words.len() implies #[trigger] words[k] == word_at(
        b,
        at + 8 * k,
    ) by {
        assert(words[k] == word_at(a, at + 8 * k));
        assert(a.subrange(at + 8 * k, at + 8 * k + 8) =~= b.subrange(at + 8 * k, at + 8 * k + 8));
    }
}

/// The memory of a context.
pub struct OwnedVMContext {
    base: usize,
    bytes: Vec<u8>,
}

impl View for OwnedVMContext {
    type V = Seq<u8>;

    closed spec fn view(&self) -> Seq<u8> {
        self.bytes@
    }
}

impl OwnedVMContext {
    /// The address of the context.
    pub closed spec fn spec_base(self) -> usize {
        self.base
    }

    /// The context lies in the address space.
    pub open spec fn wf(self) -> bool {
        self.spec_base() + self@.len() <= usize::MAX
    }

    /// A zeroed context at an address, with room for what offsets lay out.
    pub fn try_new(base: usize, offsets: &VMOffsets) -> (r: Self)
        requires
            base + offsets.size <= usize::MAX,
        ensures
            r.wf(),
            r.spec_base() == base,
            r@ == Seq::new(offsets.size as nat, |i: int| 0u8),
    {
        let size: usize = offsets.size() as usize;
        let mut bytes: Vec<u8> = Vec::new();
        for i in 0..size
            invariant
                bytes@ == Seq::new(i as nat, |k: int| 0u8),
        {
            bytes.push(0);
            assert(bytes@ =~= Seq::new((i + 1) as nat, |k: int| 0u8));
        }
        OwnedVMContext { base, bytes }
    }

    /// The number of bytes of the context.
    pub fn size(&self) -> (r: usize)
        ensures
            r == self@.len(),
    {
        self.bytes.len()
    }

    /// The address of the context.
    pub fn as_ptr(&self) -> (r: usize)
        ensures
            r == self.spec_base(),
    {
        self.base
    }

    /// The address of the context.
    pub fn as_mut_ptr(&mut self) -> (r: usize)
        ensures
            r == old(self).spec_base(),
            *final(self) == *old(self),
    {
        self.base
    }

    /// The address of a field.
    pub fn plus_offset(&self, offset: u32) -> (r: usize)
        requires
            self.wf(),
            offset <= self@.len(),
        ensures
            r == self.spec_base() + offset,
    {
        self.base + offset as usize
    }

    /// The 64-bit word at an offset.
    pub fn word(&self, offset: u32) -> (r: u64)
        requires
            offset + 8 <= self@.len(),
        ensures
            r == word_at(self@, offset as int),
    {
        assert(self.bytes.len() <= usize::MAX);
        let all: &[u8] = self.bytes.as_slice();
        let field = vstd::slice::slice_subrange(all, offset as usize, offset as usize + 8);
        vstd::bytes::u64_from_le_bytes(field)
    }

    /// Sets bytes from an offset on.
    fn set_bytes(&mut self, offset: u32, data: &Vec<u8>)
        requires
            offset + data@.len() <= old(self)@.len(),
        ensures
            final(self)@ == crate::host_funcs::mem_access::bytes_written(
                old(self)@,
                offset as int,
                data@,
            ),
            final(self)@.len() == old(self)@.len(),
            final(self).spec_base() == old(self).spec_base(),
    {
        let ghost before = self@;
        assert(crate::host_funcs::mem_access::bytes_written(before, offset as int, data@.take(0))
            =~= before);
        for i in 0..data.len()
            invariant
                before == old(self)@,
                offset + data@.len() <= before.len(),
                self.base == old(self).base,
                self@ == crate::host_funcs::mem_access::bytes_written(
                    before,
                    offset as int,
                    data@.take(i as int),
                ),
        {
            assert(self.bytes.len() <= usize::MAX);
            self.bytes.set(offset as usize + i, data[i]);
            assert(self@ =~= crate::host_funcs::mem_access::bytes_written(
                before,
                offset as int,
                data@.take(i + 1),
            ));
        }
        assert(data@.take(data@.len() as int) =~= data@);
    }

    /// Sets a 32-bit field.
    pub fn set_u32(&mut self, offset: u32, value: u32)
        requires
            offset + 4 <= old(self)@.len(),
        ensures
            crate::host_funcs::mem_access::u32_at(final(self)@, offset as int) == Some(value),
            same_outside(old(self)@, final(self)@, offset as int, 4),
            final(self).spec_base() == old(self).spec_base(),
    {
        let data = vstd::bytes::u32_to_le_bytes(value);
        self.set_bytes(offset, &data);
        proof {
            crate::host_funcs::mem_access::numbers_are_read_back(
                old(self)@,
                offset as int,
                value,
            );
        }
    }

    /// Sets a 64-bit field.
    pub fn set_word(&mut self, offset: u32, value: u64)
        requires
            offset + 8 <= old(self)@.len(),
        ensures
            word_at(final(self)@, offset as int) == value,
            same_outside(old(self)@, final(self)@, offset as int, 8),
            final(self).spec_base() == old(self).spec_base(),
    {
        let data = vstd::bytes::u64_to_le_bytes(value);
        self.set_bytes(offset, &data);
        proof {
            vstd::bytes::lemma_auto_spec_u64_to_from_le_bytes();
            crate::host_funcs::mem_access::reads_give_back_writes(
                old(self)@,
                offset as int,
                data@,
            );
        }
    }

    /// Sets 64-bit fields that follow each other.
    pub fn set_words(&mut self, offset: u32, words: &Vec<u64>)
        requires
            offset + 8 * words@.len() <= old(self)@.len() <= u32::MAX,
        ensures
            words_at(final(self)@, offset as int, words@),
            same_outside(old(self)@, final(self)@, offset as int, 8 * words@.len() as int),
            final(self).spec_base() == old(self).spec_base(),
    {
        for i in 0..words.len()
            invariant
                offset + 8 * words@.len() <= old(self)@.len() <= u32::MAX,
                words_at(self@, offset as int, words@.take(i as int)),
                same_outside(old(self)@, self@, offset as int, 8 * i),
                self.spec_base() == old(self).spec_base(),
        {
            let ghost before = self@;
            self.set_word(offset + 8 * i as u32, words[i]);
            proof {
                lemma_words_kept(
                    before,
                    self@,
                    offset + 8 * i,
                    8,
                    offset as int,
                    words@.take(i as int),
                );
                assert forall|k: int| 0 <= k < i + 1 implies #[trigger] words@.take(i + 1)[k]
                    == word_at(self@, offset + 8 * k) by {
                    if k < i {
                        assert(words@.take(i as int)[k] == word_at(self@, offset + 8 * k));
                    }
                }
            }
        }
        assert(words@.take(words@.len() as int) =~= words@);
    }
}

} // verus!
