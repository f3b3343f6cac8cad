//! Lists in mapped memory.
use vstd::prelude::*;

verus! {

/// A list in mapped memory: what the memory holds, and the length of the list.
pub struct MmapVec<T> {
    base: usize,
    mapped: Vec<T>,
    len: usize,
}

/// What a list in mapped memory holds.
#[verifier::ext_equal]
pub struct MmapVecModel<T> {
    pub base: usize,
    /// All elements that the memory has room for.
    pub mapped: Seq<T>,
    /// The number of elements of the list.
    pub len: usize,
}

impl<T: Copy> View for MmapVec<T> {
    type V = MmapVecModel<T>;

    closed spec fn view(&self) -> MmapVecModel<T> {
        MmapVecModel { base: self.base, mapped: self.mapped@, len: self.len }
    }
}

impl<T> MmapVecModel<T> {
    /// The list fits in the memory.
    pub open spec fn wf(self) -> bool {
        self.len <= self.mapped.len() <= usize::MAX
    }

    /// Elements put behind the list; the length of the list stays.
    pub open spec fn written(self, at: int, elements: Seq<T>) -> MmapVecModel<T> {
        MmapVecModel {
            mapped: self.mapped.take(at) + elements + self.mapped.skip(at + elements.len()),
            ..self
        }
    }
}

impl<T: Copy> MmapVec<T> {
    /// The elements of the list, to be changed in place; the memory behind the list stays.
    pub fn slice_mut(&mut self) -> (r: &mut [T])
        requires
            old(self)@.wf(),
        ensures
            r@ == old(self)@.mapped.take(old(self)@.len as int),
            final(self)@ == (MmapVecModel {
                mapped: final(r)@ + old(self)@.mapped.skip(old(self)@.len as int),
                ..old(self)@
            }),
    {
        let len: usize = self.len;
        let (list, _) = self.mapped.as_mut_slice().split_at_mut(len);
        list
    }

    /// A list without memory.
    pub fn new_empty() -> (r: Self)
        ensures
            r@.wf(),
            r@.base == crate::runtime::mmap::DANGLING,
            r@.mapped == Seq::<T>::empty(),
            r@.len == 0,
    {
        MmapVec { base: crate::runtime::mmap::DANGLING, mapped: Vec::new(), len: 0 }
    }

    /// An empty list in zeroed memory at an address, with room for a number of elements.
    pub fn new_zeroed(base: usize, len: usize, zero: T) -> (r: Self)
        ensures
            r@.wf(),
            r@.base == base,
            r@.mapped == Seq::new(len as nat, |i: int| zero),
            r@.len == 0,
    {
        let mut mapped: Vec<T> = Vec::new();
        for i in 0..len
            invariant
                mapped@ == Seq::new(i as nat, |k: int| zero),
        {
            mapped.push(zero);
            assert(mapped@ =~= Seq::new((i + 1) as nat, |k: int| zero));
        }
        MmapVec { base, mapped, len: 0 }
    }

    /// Memory at an address that holds the given elements.
    pub fn from_slice(base: usize, elements: &Vec<T>, zero: T) -> (r: Self)
        ensures
            r@.wf(),
            r@.mapped == elements@,
            r@.len == 0,
            r@.base == (if elements@.len() == 0 {
                crate::runtime::mmap::DANGLING
            } else {
                base
            }),
    {
        if elements.len() == 0 {
            let r = Self::new_empty();
            assert(r@.mapped =~= elements@);
            r
        } else {
            let mut this = Self::new_zeroed(base, elements.len(), zero);
            let ghost before = this@;
            this.extend_from_slice(elements);
            assert(before.written(0, elements@).mapped =~= elements@);
            this
        }
    }

    /// The number of elements of the list.
    pub fn len(&self) -> (r: usize)
        ensures
            r == self@.len,
    {
        self.len
    }

    /// Whether the list is empty.
    pub fn is_empty(&self) -> (r: bool)
        ensures
            r == (self@.len == 0),
    {
        self.len == 0
    }

    /// The elements of the list.
    pub fn slice(&self) -> (r: &[T])
        requires
            self@.wf(),
        ensures
            r@ == self@.mapped.take(self@.len as int),
    {
        let all: &[T] = self.mapped.as_slice();
        let r = vstd::slice::slice_subrange(all, 0, self.len);
        assert(r@ =~= self@.mapped.take(self@.len as int));
        r
    }

    /// The address of the memory.
    pub fn as_ptr(&self) -> (r: usize)
        ensures
            r == self@.base,
    {
        self.base
    }

    /// The address of the memory.
    pub fn as_mut_ptr(&mut self) -> (r: usize)
        ensures
            r == old(self)@.base,
            final(self)@ == old(self)@,
    {
        self.base
    }

    /// Replaces elements from a position on.
    pub(crate) fn write(&mut self, at: usize, elements: &Vec<T>)
        requires
            old(self)@.wf(),
            at + elements@.len() <= old(self)@.mapped.len(),
        ensures
            final(self)@ == old(self)@.written(at as int, elements@),
            final(self)@.wf(),
    {
        let ghost before = self@;
        assert(before.written(at as int, elements@.take(0)).mapped =~= before.mapped);
        for i in 0..elements.len()
            invariant
                before == old(self)@,
                before.wf(),
                at + elements@.len() <= before.mapped.len(),
                self@ == before.written(at as int, elements@.take(i as int)),
        {
            self.mapped.set(at + i, elements[i]);
            assert(self@.mapped =~= before.written(at as int, elements@.take(i + 1)).mapped);
        }
        assert(elements@.take(elements@.len() as int) =~= elements@);
    }

    /// Puts elements behind the list; the length of the list stays.
    pub fn extend_from_slice(&mut self, elements: &Vec<T>)
        requires
            old(self)@.wf(),
            old(self)@.len + elements@.len() <= old(self)@.mapped.len(),
        ensures
            final(self)@ == old(self)@.written(old(self)@.len as int, elements@),
            final(self)@.wf(),
    {
        let at: usize = self.len;
        self.write(at, elements);
    }

    /// Puts an element behind the list a number of times; the length of the list stays.
    pub fn extend_with(&mut self, count: usize, elem: T)
        requires
            old(self)@.wf(),
            old(self)@.len + count <= old(self)@.mapped.len(),
        ensures
            final(self)@ == old(self)@.written(
                old(self)@.len as int,
                Seq::new(count as nat, |i: int| elem),
            ),
            final(self)@.wf(),
    {
        let mut elements: Vec<T> = Vec::new();
        for i in 0..count
            invariant
                elements@ == Seq::new(i as nat, |k: int| elem),
        {
            elements.push(elem);
            assert(elements@ =~= Seq::new((i + 1) as nat, |k: int| elem));
        }
        self.extend_from_slice(&elements);
    }
}

} // verus!
