//! Mapped memory and its protection.
use vstd::prelude::*;

verus! {

/// What mapped memory can be used for.
#[derive(Debug, Clone, Copy, PartialEq, Eq, Structural)]
pub enum Access {
    ReadWrite,
    ReadExecute,
    Read,
}

/// A change of the protection of a range of addresses.
#[derive(Debug, Clone, Copy, PartialEq, Eq, Structural)]
pub struct Protect {
    pub addr: usize,
    pub len: usize,
    pub access: Access,
}

/// A range of mapped memory.
#[derive(Debug, PartialEq, Eq, Structural)]
pub struct Mmap {
    pub base: usize,
    pub len: usize,
}

/// The address of mappings without bytes.
pub const DANGLING: usize = 1;

/// The least multiple of the page size that is not below a size.
pub open spec fn rounded_up(size: int, page_size: int) -> int {
    (size + page_size - 1) / page_size * page_size
}

/// Rounds a size up to whole pages.
pub fn round_usize_up_to_host_pages(size: usize, page_size: usize) -> (r: usize)
    requires
        page_size > 0,
        size + page_size - 1 <= usize::MAX,
    ensures
        r == rounded_up(size as int, page_size as int),
        size <= r < size + page_size,
        r % page_size == 0,
{
    let pages: usize = (size + (page_size - 1)) / page_size;
    proof {
        let (s, p) = (size as int, page_size as int);
        vstd::arithmetic::div_mod::lemma_fundamental_div_mod(s + p - 1, p);
        vstd::arithmetic::div_mod::lemma_mod_bound(s + p - 1, p);
        vstd::arithmetic::mul::lemma_mul_is_commutative(p, (s + p - 1) / p);
        vstd::arithmetic::div_mod::lemma_mod_multiples_basic((s + p - 1) / p, p);
    }
    pages * page_size
}

/// Whether a size is a number of whole pages.
pub fn usize_is_multiple_of_host_page_size(size: usize, page_size: usize) -> (r: bool)
    requires
        page_size > 0,
    ensures
        r == (size % page_size == 0),
{
    size % page_size == 0
}

impl Mmap {
    /// The mapping lies in the address space.
    pub open spec fn wf(self) -> bool {
        self.base + self.len <= usize::MAX
    }

    /// A mapping without bytes.
    pub fn new_empty() -> (r: Self)
        ensures
            r.wf(),
            r.len == 0,
            r.base == DANGLING,
    {
        Mmap { base: DANGLING, len: 0 }
    }

    /// The mapping of whole pages that lies at an address.
    pub fn new(base: usize, size: usize, page_size: usize) -> (r: Self)
        requires
            page_size > 0,
            size % page_size == 0,
            base + size <= usize::MAX,
        ensures
            r.wf(),
            r.base == base,
            r.len == size,
    {
        Mmap { base, len: size }
    }

    /// The address and the length of a range of the mapping.
    pub fn slice(&self, start: usize, end: usize) -> (r: (usize, usize))
        requires
            self.wf(),
            start <= end <= self.len,
        ensures
            r == ((self.base + start) as usize, (end - start) as usize),
    {
        (self.base + start, end - start)
    }

    /// The address of the mapping.
    pub fn as_ptr(&self) -> (r: usize)
        ensures
            r == self.base,
    {
        self.base
    }

    /// The address of the mapping.
    pub fn as_mut_ptr(&mut self) -> (r: usize)
        ensures
            r == old(self).base,
            *final(self) == *old(self),
    {
        self.base
    }

    /// The number of bytes of the mapping.
    pub fn len(&self) -> (r: usize)
        ensures
            r == self.len,
    {
        self.len
    }

    /// Whether the mapping has no bytes.
    pub fn is_empty(&self) -> (r: bool)
        ensures
            r == (self.len == 0),
    {
        self.len == 0
    }

    /// The change that makes a range, from a page on, readable and writable.
    pub fn make_accessible(&mut self, start: usize, len: usize, page_size: usize) -> (r: Protect)
        requires
            old(self).wf(),
            page_size > 0,
            start + len <= old(self).len,
            (old(self).base + start) as usize % page_size == 0,
        ensures
            r == (Protect {
                addr: (old(self).base + start) as usize,
                len,
                access: Access::ReadWrite,
            }),
            *final(self) == *old(self),
    {
        Protect { addr: self.base + start, len, access: Access::ReadWrite }
    }

    /// The change that makes a range, from a page on, readable and executable.
    pub fn make_executable(&self, start: usize, end: usize, page_size: usize) -> (r: Protect)
        requires
            self.wf(),
            page_size > 0,
            start <= end <= self.len,
            start % page_size == 0,
        ensures
            r == (Protect {
                addr: (self.base + start) as usize,
                len: (end - start) as usize,
                access: Access::ReadExecute,
            }),
    {
        Protect { addr: self.base + start, len: end - start, access: Access::ReadExecute }
    }

    /// The change that makes a range, from a page on, readable only.
    pub fn make_readonly(&self, start: usize, end: usize, page_size: usize) -> (r: Protect)
        requires
            self.wf(),
            page_size > 0,
            start <= end <= self.len,
            start % page_size == 0,
        ensures
            r == (Protect {
                addr: (self.base + start) as usize,
                len: (end - start) as usize,
                access: Access::Read,
            }),
    {
        Protect { addr: self.base + start, len: end - start, access: Access::Read }
    }
}

} // verus!
