//! Hash maps keyed by 32-bit indices.
use vstd::prelude::*;

verus! {

/// A hash map from indices to positions.
#[verifier::external_body]
pub struct IndexMap {
    map: hashbrown::HashMap<u32, usize>,
}

/// The entries of a hash map.
pub uninterp spec fn index_map_entries(map: IndexMap) -> Map<u32, usize>;

impl IndexMap {
    /// Calls `hashbrown::HashMap::new`, whose result has no entries.
    #[verifier::external_body]
    pub(crate) fn new() -> (r: IndexMap)
        ensures
            (index_map_entries(r) == Map::<u32, usize>::empty()),
    {
        IndexMap { map: hashbrown::HashMap::new() }
    }

    /// Calls `hashbrown::HashMap::get`, which gives the value stored under a key, if there is one.
    #[verifier::external_body]
    pub(crate) fn get(&self, key: u32) -> (r: Option<usize>)
        ensures
            r == (if index_map_entries(*self).dom().contains(key) {
                Some(index_map_entries(*self)[key])
            } else {
                None
            }),
    {
        self.map.get(&key).copied()
    }

    /// Calls `hashbrown::HashMap::insert`, which stores a value under a key, in place of an earlier
    /// one, and keeps the other entries.
    #[verifier::external_body]
    pub(crate) fn insert(&mut self, key: u32, value: usize)
        ensures
            index_map_entries(*final(self)) == index_map_entries(*old(self)).insert(key, value),
    {
        self.map.insert(key, value);
    }

    /// Calls `hashbrown::HashMap::clear`, which removes all entries.
    #[verifier::external_body]
    pub(crate) fn clear(&mut self)
        ensures
            (index_map_entries(*final(self)) == Map::<u32, usize>::empty()),
    {
        self.map.clear();
    }
}

/// Values remembered by index.
pub struct Cache<T> {
    map: IndexMap,
    entries: Vec<T>,
}

impl<T> View for Cache<T> {
    type V = Map<u32, T>;

    closed spec fn view(&self) -> Map<u32, T> {
        Map::new(
            |k: u32| index_map_entries(self.map).dom().contains(k),
            |k: u32| self.entries@[index_map_entries(self.map)[k] as int],
        )
    }
}

impl<T: Copy> Cache<T> {
    /// Every index leads to a value.
    pub closed spec fn wf(self) -> bool {
        forall|k: u32| #[trigger]
            index_map_entries(self.map).dom().contains(k) ==> index_map_entries(self.map)[k]
                < self.entries@.len()
    }

    /// A cache without values.
    pub fn new() -> (r: Self)
        ensures
            r.wf(),
            r@ == Map::<u32, T>::empty(),
    {
        let r = Cache { map: IndexMap::new(), entries: Vec::new() };
        assert(r@ =~= Map::<u32, T>::empty());
        r
    }

    /// The value remembered for an index.
    pub fn get(&self, key: u32) -> (r: Option<T>)
        requires
            self.wf(),
        ensures
            r == (if self@.dom().contains(key) {
                Some(self@[key])
            } else {
                None
            }),
    {
        match self.map.get(key) {
            Some(i) => Some(self.entries[i]),
            None => None,
        }
    }

    /// Remembers a value for an index.
    pub fn insert(&mut self, key: u32, value: T)
        requires
            old(self).wf(),
        ensures
            final(self).wf(),
            final(self)@ == old(self)@.insert(key, value),
    {
        let i: usize = self.entries.len();
        self.entries.push(value);
        self.map.insert(key, i);
        assert(self@ =~= old(self)@.insert(key, value));
    }

    /// Forgets all values.
    pub fn clear(&mut self)
        ensures
            final(self).wf(),
            final(self)@ == Map::<u32, T>::empty(),
    {
        self.map.clear();
        self.entries.clear();
        assert(self@ =~= Map::<u32, T>::empty());
    }
}

} // verus!
