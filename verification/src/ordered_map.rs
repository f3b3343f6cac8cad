//! Maps in the order of their keys.
use vstd::prelude::*;

verus! {

/// A map from numbers, in the order of the numbers.
pub struct OrderedMap<V> {
    keys: Vec<usize>,
    values: Vec<V>,
}

/// Whether numbers increase.
pub open spec fn increasing(keys: Seq<usize>) -> bool {
    forall|i: int, j: int| 0 <= i < j < keys.len() ==> #[trigger] keys[i] < #[trigger] keys[j]
}

/// The entries of increasing keys with their values.
pub open spec fn entries<V>(keys: Seq<usize>, values: Seq<V>) -> Map<usize, V> {
    Map::new(|k: usize| keys.contains(k), |k: usize| values[keys.index_of(k)])
}

/// Whether a key is the least of a map that is not below a number.
pub open spec fn least_above<V>(map: Map<usize, V>, from: usize, key: usize) -> bool {
    &&& map.dom().contains(key)
    &&& from <= key
    &&& forall|k: usize| #[trigger] map.dom().contains(k) && from <= k ==> key <= k
}

/// Whether all keys of a map are below a number.
pub open spec fn none_above<V>(map: Map<usize, V>, from: usize) -> bool {
    forall|k: usize| #[trigger] map.dom().contains(k) ==> k < from
}

/// Whether a key is the greatest of a map that is not above a number.
pub open spec fn greatest_below<V>(map: Map<usize, V>, to: usize, key: usize) -> bool {
    &&& map.dom().contains(key)
    &&& key <= to
    &&& forall|k: usize| #[trigger] map.dom().contains(k) && k <= to ==> k <= key
}

/// Whether all keys of a map are above a number.
pub open spec fn none_below<V>(map: Map<usize, V>, to: usize) -> bool {
    forall|k: usize| #[trigger] map.dom().contains(k) ==> to < k
}

/// The entry of a key is the value at its position.
proof fn lemma_entry<V>(keys: Seq<usize>, values: Seq<V>, i: int)
    requires
        increasing(keys),
        keys.len() == values.len(),
        0 <= i < keys.len(),
    ensures
        keys.index_of(keys[i]) == i,
        entries(keys, values).dom().contains(keys[i]),
        entries(keys, values)[keys[i]] == values[i],
{
    assert(keys.contains(keys[i]));
    let j = keys.index_of(keys[i]);
    assert(0 <= j < keys.len() && keys[j] == keys[i]);
    if j < i {
        assert(keys[j] < keys[i]);
    } else if i < j {
        assert(keys[i] < keys[j]);
    }
}

impl<V: Copy> View for OrderedMap<V> {
    type V = Map<usize, V>;

    closed spec fn view(&self) -> Map<usize, V> {
        entries(self.keys@, self.values@)
    }
}

impl<V: Copy> OrderedMap<V> {
    /// The keys increase, and each has a value.
    pub closed spec fn wf(self) -> bool {
        &&& increasing(self.keys@)
        &&& self.keys@.len() == self.values@.len()
    }

    /// A map without entries.
    pub fn new() -> (r: Self)
        ensures
            r.wf(),
            r@ == Map::<usize, V>::empty(),
    {
        let r = OrderedMap { keys: Vec::new(), values: Vec::new() };
        assert(r@ =~= Map::<usize, V>::empty());
        r
    }

    /// The position of the first key that is not below a number.
    fn position(&self, key: usize) -> (r: usize)
        requires
            self.wf(),
        ensures
            r <= self.keys@.len(),
            forall|i: int| 0 <= i < r ==> #[trigger] self.keys@[i] < key,
            forall|i: int| r <= i < self.keys@.len() ==> key <= #[trigger] self.keys@[i],
    {
        let mut lo: usize = 0;
        let mut hi: usize = self.keys.len();
        while lo < hi
            invariant
                self.wf(),
                lo <= hi <= self.keys@.len(),
                forall|i: int| 0 <= i < lo ==> #[trigger] self.keys@[i] < key,
                forall|i: int| hi <= i < self.keys@.len() ==> key <= #[trigger] self.keys@[i],
            decreases hi - lo,
        {
            let mid: usize = lo + (hi - lo) / 2;
            if self.keys[mid] < key {
                assert forall|i: int| 0 <= i < mid + 1 implies #[trigger] self.keys@[i] < key by {
                    if i < mid {
                        assert(self.keys@[i] < self.keys@[mid as int]);
                    }
                }
                lo = mid + 1;
            } else {
                assert forall|i: int| mid <= i < self.keys@.len() implies key
                    <= #[trigger] self.keys@[i] by {
                    if mid < i {
                        assert(self.keys@[mid as int] < self.keys@[i]);
                    }
                }
                hi = mid;
            }
        }
        lo
    }

    /// The value of a key.
    pub fn get(&self, key: usize) -> (r: Option<V>)
        requires
            self.wf(),
        ensures
            r == (if self@.dom().contains(key) {
                Some(self@[key])
            } else {
                None
            }),
    {
        let i: usize = self.position(key);
        if i < self.keys.len() && self.keys[i] == key {
            proof {
                lemma_entry(self.keys@, self.values@, i as int);
            }
            Some(self.values[i])
        } else {
            proof {
                if self.keys@.contains(key) {
                    let j = self.keys@.index_of(key);
                    assert(self.keys@[j] == key);
                    if i < self.keys@.len() && j > i {
                        assert(self.keys@[i as int] < self.keys@[j]);
                    }
                }
            }
            None
        }
    }

    /// Sets the value of a key; gives the one before.
    pub fn insert(&mut self, key: usize, value: V) -> (r: Option<V>)
        requires
            old(self).wf(),
        ensures
            final(self).wf(),
            final(self)@ == old(self)@.insert(key, value),
            r == (if old(self)@.dom().contains(key) {
                Some(old(self)@[key])
            } else {
                None
            }),
    {
        let before = self.get(key);
        let i: usize = self.position(key);
        let ghost keys = self.keys@;
        let ghost values = self.values@;
        if i < self.keys.len() && self.keys[i] == key {
            self.values.set(i, value);
            proof {
                assert(self.keys@ == keys);
                assert forall|k: usize| keys.contains(k) implies #[trigger] entries(
                    keys,
                    self.values@,
                )[k] == entries(keys, values).insert(key, value)[k] by {
                    lemma_entry(keys, values, keys.index_of(k));
                    lemma_entry(keys, self.values@, keys.index_of(k));
                    lemma_entry(keys, values, i as int);
                }
                assert(keys.contains(keys[i as int]));
                assert(self@ =~= old(self)@.insert(key, value));
            }
        } else {
            self.keys.insert(i, key);
            self.values.insert(i, value);
            proof {
                assert(self.keys@ == keys.insert(i as int, key));
                assert(self.values@ == values.insert(i as int, value));
                assert forall|a: int, b: int| 0 <= a < b < self.keys@.len() implies #[trigger] self.keys@[a]
                    < #[trigger] self.keys@[b] by {
                    let x = if a < i { a } else { a - 1 };
                    let y = if b < i { b } else { b - 1 };
                    if a == i {
                        assert(keys[y] >= key);
                        if i < keys.len() && y > i {
                            assert(keys[i as int] < keys[y]);
                        }
                    } else if b == i {
                        assert(keys[x] < key);
                    } else {
                        assert(keys[x] < keys[y]);
                    }
                }
                assert forall|k: usize| self.keys@.contains(k) <==> keys.contains(k) || k == key by {
                    if self.keys@.contains(k) {
                        let j = self.keys@.index_of(k);
                        if j < i {
                            assert(keys[j] == k);
                        } else if j > i {
                            assert(keys[j - 1] == k);
                        }
                    }
                    if keys.contains(k) {
                        let j = keys.index_of(k);
                        if j < i {
                            assert(self.keys@[j] == k);
                        } else {
                            assert(self.keys@[j + 1] == k);
                        }
                    }
                    if k == key {
                        assert(self.keys@[i as int] == k);
                    }
                }
                assert forall|k: usize| self.keys@.contains(k) implies #[trigger] entries(
                    self.keys@,
                    self.values@,
                )[k] == entries(keys, values).insert(key, value)[k] by {
                    let j = self.keys@.index_of(k);
                    lemma_entry(self.keys@, self.values@, j);
                    if j < i {
                        lemma_entry(keys, values, j);
                        assert(keys[j] == k);
                    } else if j > i {
                        lemma_entry(keys, values, j - 1);
                        assert(keys[j - 1] == k);
                    }
                    if k == key {
                        lemma_entry(self.keys@, self.values@, i as int);
                    }
                }
                assert(self@ =~= old(self)@.insert(key, value));
            }
        }
        before
    }

    /// Removes a key; gives its value.
    pub fn remove(&mut self, key: usize) -> (r: Option<V>)
        requires
            old(self).wf(),
        ensures
            final(self).wf(),
            final(self)@ == old(self)@.remove(key),
            r == (if old(self)@.dom().contains(key) {
                Some(old(self)@[key])
            } else {
                None
            }),
    {
        let before = self.get(key);
        let i: usize = self.position(key);
        let ghost keys = self.keys@;
        let ghost values = self.values@;
        if i < self.keys.len() && self.keys[i] == key {
            self.keys.remove(i);
            self.values.remove(i);
            proof {
                assert(self.keys@ == keys.remove(i as int));
                assert(self.values@ == values.remove(i as int));
                assert forall|a: int, b: int| 0 <= a < b < self.keys@.len() implies #[trigger] self.keys@[a]
                    < #[trigger] self.keys@[b] by {
                    let x = if a < i { a } else { a + 1 };
                    let y = if b < i { b } else { b + 1 };
                    assert(keys[x] < keys[y]);
                }
                assert forall|k: usize| self.keys@.contains(k) <==> keys.contains(k) && k != key by {
                    if self.keys@.contains(k) {
                        let j = self.keys@.index_of(k);
                        if j < i {
                            assert(keys[j] == k);
                            assert(keys[j] < keys[i as int]);
                        } else {
                            assert(keys[j + 1] == k);
                            assert(keys[i as int] < keys[j + 1]);
                        }
                    }
                    if keys.contains(k) && k != key {
                        let j = keys.index_of(k);
                        if j < i {
                            assert(self.keys@[j] == k);
                        } else {
                            assert(self.keys@[j - 1] == k);
                        }
                    }
                }
                assert forall|k: usize| self.keys@.contains(k) implies #[trigger] entries(
                    self.keys@,
                    self.values@,
                )[k] == entries(keys, values)[k] by {
                    let j = self.keys@.index_of(k);
                    lemma_entry(self.keys@, self.values@, j);
                    if j < i {
                        lemma_entry(keys, values, j);
                    } else {
                        lemma_entry(keys, values, j + 1);
                    }
                }
                assert(self@ =~= old(self)@.remove(key));
            }
        } else {
            assert(self@ =~= old(self)@.remove(key));
        }
        before
    }

    /// The entry with the least key that is not below a number.
    pub fn first_from(&self, from: usize) -> (r: Option<(usize, V)>)
        requires
            self.wf(),
        ensures
            r matches Some((key, value)) ==> least_above(self@, from, key) && self@[key] == value,
            r is None <==> none_above(self@, from),
    {
        let i: usize = self.position(from);
        if i < self.keys.len() {
            proof {
                lemma_entry(self.keys@, self.values@, i as int);
                assert forall|k: usize| #[trigger] self@.dom().contains(k) && from <= k implies
                    self.keys@[i as int] <= k by {
                    let j = self.keys@.index_of(k);
                    if i < j {
                        assert(self.keys@[i as int] < self.keys@[j]);
                    }
                }
            }
            Some((self.keys[i], self.values[i]))
        } else {
            proof {
                assert forall|k: usize| #[trigger] self@.dom().contains(k) implies k < from by {
                    let j = self.keys@.index_of(k);
                    assert(self.keys@[j] == k);
                }
            }
            None
        }
    }

    /// The entry with the greatest key that is not above a number.
    pub fn last_to(&self, to: usize) -> (r: Option<(usize, V)>)
        requires
            self.wf(),
        ensures
            r matches Some((key, value)) ==> greatest_below(self@, to, key) && self@[key] == value,
            r is None <==> none_below(self@, to),
    {
        let mut i: usize = self.position(to);
        if i < self.keys.len() && self.keys[i] == to {
            proof {
                lemma_entry(self.keys@, self.values@, i as int);
            }
            return Some((to, self.values[i]));
        }
        proof {
            assert forall|k: int| i <= k < self.keys@.len() implies to < #[trigger] self.keys@[k] by {
                if i < k {
                    assert(self.keys@[i as int] < self.keys@[k]);
                }
            }
        }
        if i > 0 {
            i = i - 1;
            proof {
                lemma_entry(self.keys@, self.values@, i as int);
                assert forall|k: usize| #[trigger] self@.dom().contains(k) && k <= to implies k
                    <= self.keys@[i as int] by {
                    let j = self.keys@.index_of(k);
                    assert(self.keys@[j] == k);
                    if j < i {
                        assert(self.keys@[j] < self.keys@[i as int]);
                    }
                }
            }
            Some((self.keys[i], self.values[i]))
        } else {
            proof {
                assert forall|k: usize| #[trigger] self@.dom().contains(k) implies to < k by {
                    let j = self.keys@.index_of(k);
                    assert(self.keys@[j] == k);
                }
            }
            None
        }
    }
}

} // verus!
