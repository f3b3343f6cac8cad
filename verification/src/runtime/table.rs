//! Tables of function references.
use crate::runtime::mmap_vec::MmapVec;
use crate::runtime::vmcontext::VMDefinition;
use crate::types::TableDesc;
use vstd::prelude::*;

verus! {

/// The largest number of elements of a table.
pub const TABLE_MAX: usize = 1024;

/// A table; its elements are the addresses of function references, or null.
pub struct Table {
    pub elements: MmapVec<Option<usize>>,
    /// The number of elements that the table can grow to.
    pub maximum: Option<usize>,
}

/// The number of elements that memory is mapped for.
pub open spec fn reserve_size(actual_maximum: Option<usize>) -> usize {
    match actual_maximum {
        Some(max) if max < TABLE_MAX => max,
        _ => TABLE_MAX,
    }
}

impl Table {
    /// The elements of the table, to be changed in place.
    pub fn elements_mut(&mut self) -> (r: &mut [Option<usize>])
        requires
            old(self).elements@.wf(),
        ensures
            r@ == old(self).elements@.mapped.take(old(self).elements@.len as int),
            final(self).elements@ == (crate::runtime::mmap_vec::MmapVecModel {
                mapped: final(r)@ + old(self).elements@.mapped.skip(old(self).elements@.len as int),
                ..old(self).elements@
            }),
            final(self).maximum == old(self).maximum,
    {
        self.elements.slice_mut()
    }

    /// A table in zeroed memory at an address, whose first elements are null.
    pub fn try_new(base: usize, desc: &TableDesc, actual_maximum: Option<usize>) -> (r: Self)
        requires
            reserve_size(actual_maximum) > 0 ==> desc.minimum <= reserve_size(actual_maximum),
        ensures
            r.elements@.wf(),
            r.elements@.len == 0,
            r.elements@.mapped == Seq::new(
                reserve_size(actual_maximum) as nat,
                |i: int| None::<usize>,
            ),
            r.elements@.base == (if reserve_size(actual_maximum) > 0 {
                base
            } else {
                crate::runtime::mmap::DANGLING
            }),
            r.maximum == actual_maximum,
    {
        let reserve_size: usize = match actual_maximum {
            Some(max) => if max < TABLE_MAX {
                max
            } else {
                TABLE_MAX
            },
            None => TABLE_MAX,
        };
        let elements: MmapVec<Option<usize>> = if reserve_size == 0 {
            MmapVec::new_empty()
        } else {
            let mut elements = MmapVec::new_zeroed(base, reserve_size, None);
            elements.extend_with(desc.minimum as usize, None);
            elements
        };
        assert(elements@.mapped =~= Seq::new(reserve_size as nat, |i: int| None::<usize>));
        Table { elements, maximum: actual_maximum }
    }

    /// Sets all elements of the list to one value.
    pub fn fill_elements(&mut self, value: Option<usize>)
        requires
            old(self).elements@.wf(),
        ensures
            final(self).elements@ == old(self).elements@.written(
                0,
                Seq::new(old(self).elements@.len as nat, |i: int| value),
            ),
            final(self).elements@.wf(),
            final(self).maximum == old(self).maximum,
    {
        let n: usize = self.elements.len();
        let mut values: Vec<Option<usize>> = Vec::new();
        for i in 0..n
            invariant
                values@ == Seq::new(i as nat, |k: int| value),
        {
            values.push(value);
            assert(values@ =~= Seq::new((i + 1) as nat, |k: int| value));
        }
        self.elements.write(0, &values);
    }

    /// Replaces elements of the list from a position on.
    pub fn copy_elements(&mut self, at: usize, values: &Vec<Option<usize>>)
        requires
            old(self).elements@.wf(),
            at + values@.len() <= old(self).elements@.len,
        ensures
            final(self).elements@ == old(self).elements@.written(at as int, values@),
            final(self).elements@.wf(),
            final(self).maximum == old(self).maximum,
    {
        self.elements.write(at, values);
    }

    /// The elements of the list.
    pub fn elements(&self) -> (r: &[Option<usize>])
        requires
            self.elements@.wf(),
        ensures
            r@ == self.elements@.mapped.take(self.elements@.len as int),
    {
        self.elements.slice()
    }

    /// What compiled code sees of the table: where its elements lie, and how many there are.
    pub open spec fn definition(self) -> VMDefinition {
        VMDefinition {
            base: self.elements@.base as u64,
            current_length: self.elements@.len as u64,
        }
    }

    /// What compiled code sees of the table.
    pub fn as_vmtable_definition(&self) -> (r: VMDefinition)
        ensures
            r == self.definition(),
    {
        VMDefinition {
            base: self.elements.as_ptr() as u64,
            current_length: self.elements.len() as u64,
        }
    }
}

} // verus!
