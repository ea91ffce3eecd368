//! Sets and maps of a few items.

use vstd::prelude::*;

verus! {

/// A value that can be told apart from others by its view.
pub trait Distinct: View + Sized {
    /// Whether both have the same view.
    fn same(&self, other: &Self) -> (same: bool)
        ensures
            same == (self@ == other@),
    ;
}

/// A set: a list in which nothing occurs twice.
#[derive(Debug)]
pub struct UniqueVec<T> {
    items: Vec<T>,
}

impl<T: Distinct> UniqueVec<T> {
    /// Nothing occurs twice.
    pub closed spec fn wf(self) -> bool {
        forall|i: int, j: int|
            0 <= i < j < self.items@.len() ==> (#[trigger] self.items@[i])@ != (
            #[trigger] self.items@[j])@
    }

    /// The views of the items.
    pub closed spec fn set(self) -> Set<T::V> {
        Set::new(
            |v: T::V|
                exists|i: int| 0 <= i < self.items@.len() && (#[trigger] self.items@[i])@ == v,
        )
    }

    /// The empty set.
    pub fn new() -> (set: Self)
        ensures
            set.wf(),
            set.set() == Set::<T::V>::empty(),
    {
        let set = UniqueVec { items: Vec::new() };
        assert(set.set() =~= Set::<T::V>::empty());
        set
    }

    fn position(&self, item: &T) -> (position: Option<usize>)
        ensures
            match position {
                Some(i) => i < self.items@.len() && self.items@[i as int]@ == item@,
                None => forall|i: int|
                    0 <= i < self.items@.len() ==> (#[trigger] self.items@[i])@ != item@,
            },
    {
        let mut i: usize = 0;
        while i < self.items.len()
            invariant
                i <= self.items@.len(),
                forall|j: int| 0 <= j < i ==> (#[trigger] self.items@[j])@ != item@,
            decreases self.items@.len() - i,
        {
            if self.items[i].same(item) {
                return Some(i);
            }
            i = i + 1;
        }
        None
    }

    /// Whether the item is in the set.
    pub fn contains(&self, item: &T) -> (found: bool)
        ensures
            found == self.set().contains(item@),
    {
        self.position(item).is_some()
    }

    /// Puts the item into the set.
    pub fn insert(&mut self, item: T)
        requires
            old(self).wf(),
        ensures
            final(self).wf(),
            final(self).set() == old(self).set().insert(item@),
    {
        let ghost before = self.items@;
        if self.position(&item).is_none() {
            self.items.push(item);
            proof {
                let after = self.items@;
                assert forall|v: T::V| self.set().contains(v) <==> old(self).set().insert(
                    item@,
                ).contains(v) by {
                    if old(self).set().contains(v) {
                        let i = choose|i: int|
                            0 <= i < before.len() && (#[trigger] before[i])@ == v;
                        assert(after[i]@ == v);
                    }
                    if v == item@ {
                        assert(after[before.len() as int]@ == v);
                    }
                    if self.set().contains(v) {
                        let i = choose|i: int| 0 <= i < after.len() && (#[trigger] after[i])@ == v;
                        if i < before.len() {
                            assert(before[i]@ == v);
                        }
                    }
                }
            }
        }
        assert(self.set() =~= old(self).set().insert(item@));
    }

    /// Takes the item out of the set, if it is there.
    pub fn remove(&mut self, item: &T)
        requires
            old(self).wf(),
        ensures
            final(self).wf(),
            final(self).set() == old(self).set().remove(item@),
    {
        let ghost before = self.items@;
        if let Some(position) = self.position(item) {
            self.items.remove(position);
            proof {
                let after = self.items@;
                assert forall|v: T::V| self.set().contains(v) <==> old(self).set().remove(
                    item@,
                ).contains(v) by {
                    if self.set().contains(v) {
                        let i = choose|i: int| 0 <= i < after.len() && (#[trigger] after[i])@ == v;
                        let j = if i < position {
                            i
                        } else {
                            i + 1
                        };
                        assert(before[j]@ == v);
                        assert(before[position as int]@ == item@);
                    }
                    if old(self).set().contains(v) && v != item@ {
                        let j = choose|j: int|
                            0 <= j < before.len() && (#[trigger] before[j])@ == v;
                        let i = if j < position {
                            j
                        } else {
                            j - 1
                        };
                        assert(after[i]@ == v);
                    }
                }
            }
        }
        assert(self.set() =~= old(self).set().remove(item@));
    }
}

/// A map from text to a number: a list of pairs in which no key occurs twice.
#[derive(Debug)]
pub struct TextMap {
    entries: Vec<(String, u64)>,
}

impl TextMap {
    /// No key occurs twice.
    pub closed spec fn wf(self) -> bool {
        forall|i: int, j: int|
            0 <= i < j < self.entries@.len() ==> (#[trigger] self.entries@[i]).0@ != (
            #[trigger] self.entries@[j]).0@
    }

    spec fn holds(self, key: Seq<char>, i: int) -> bool {
        0 <= i < self.entries@.len() && self.entries@[i].0@ == key
    }

    /// The numbers by their keys.
    pub closed spec fn map(self) -> Map<Seq<char>, u64> {
        Map::new(
            |key: Seq<char>| exists|i: int| self.holds(key, i),
            |key: Seq<char>| self.entries@[choose|i: int| self.holds(key, i)].1,
        )
    }

    /// The empty map.
    pub fn new() -> (map: Self)
        ensures
            map.wf(),
            map.map() == Map::<Seq<char>, u64>::empty(),
    {
        let map = TextMap { entries: Vec::new() };
        assert(map.map() =~= Map::<Seq<char>, u64>::empty());
        map
    }

    proof fn found(self, key: Seq<char>, i: int)
        requires
            self.wf(),
            self.holds(key, i),
        ensures
            self.map().contains_key(key),
            self.map()[key] == self.entries@[i].1,
    {
        let j = choose|j: int| self.holds(key, j);
        assert(self.holds(key, j));
        assert(i == j);
    }

    fn position(&self, key: &String) -> (position: Option<usize>)
        ensures
            match position {
                Some(i) => self.holds(key@, i as int),
                None => forall|i: int| !#[trigger] self.holds(key@, i),
            },
    {
        let mut i: usize = 0;
        while i < self.entries.len()
            invariant
                i <= self.entries@.len(),
                forall|j: int| 0 <= j < i ==> !#[trigger] self.holds(key@, j),
            decreases self.entries@.len() - i,
        {
            if self.entries[i].0 == *key {
                return Some(i);
            }
            i = i + 1;
        }
        None
    }

    /// Whether the map has the key.
    pub fn contains_key(&self, key: &String) -> (found: bool)
        ensures
            found == self.map().contains_key(key@),
    {
        self.position(key).is_some()
    }

    /// Takes the key out of the map, if it is there.
    pub fn remove(&mut self, key: &String)
        requires
            old(self).wf(),
        ensures
            final(self).wf(),
            final(self).map() == old(self).map().remove(key@),
    {
        let ghost before = *self;
        if let Some(position) = self.position(key) {
            self.entries.remove(position);
            proof {
                let after = *self;
                assert(after.wf());
                assert forall|k: Seq<char>|
                    after.map().contains_key(k) <==> before.map().remove(key@).contains_key(k) by {
                    if after.map().contains_key(k) {
                        let i = choose|i: int| after.holds(k, i);
                        let j = if i < position {
                            i
                        } else {
                            i + 1
                        };
                        assert(before.holds(k, j));
                    }
                    if before.map().contains_key(k) && k != key@ {
                        let j = choose|j: int| before.holds(k, j);
                        let i = if j < position {
                            j
                        } else {
                            j - 1
                        };
                        assert(after.holds(k, i));
                    }
                }
                assert forall|k: Seq<char>| after.map().contains_key(k) implies after.map()[k]
                    == before.map()[k] by {
                    let i = choose|i: int| after.holds(k, i);
                    let j = if i < position {
                        i
                    } else {
                        i + 1
                    };
                    after.found(k, i);
                    before.found(k, j);
                }
            }
        }
        assert(self.map() =~= old(self).map().remove(key@));
    }

    /// Gives the key that number.
    pub fn insert(&mut self, key: String, number: u64)
        requires
            old(self).wf(),
        ensures
            final(self).wf(),
            final(self).map() == old(self).map().insert(key@, number),
    {
        self.remove(&key);
        let ghost before = *self;
        let ghost new_key = key@;
        proof {
            assert forall|i: int| !#[trigger] before.holds(new_key, i) by {
                if before.holds(new_key, i) {
                    before.found(new_key, i);
                }
            }
        }
        self.entries.push((key, number));
        proof {
            let after = *self;
            let last = before.entries@.len() as int;
            assert(after.wf()) by {
                assert forall|i: int, j: int| 0 <= i < j < after.entries@.len() implies (
                #[trigger] after.entries@[i]).0@ != (#[trigger] after.entries@[j]).0@ by {
                    assert(!before.holds(new_key, i));
                }
            }
            assert(after.holds(new_key, last));
            after.found(new_key, last);
            assert forall|k: Seq<char>|
                after.map().contains_key(k) <==> before.map().insert(new_key, number).contains_key(
                    k,
                ) by {
                if after.map().contains_key(k) {
                    let i = choose|i: int| after.holds(k, i);
                    if i < last {
                        assert(before.holds(k, i));
                    }
                }
                if before.map().contains_key(k) {
                    let i = choose|i: int| before.holds(k, i);
                    assert(after.holds(k, i));
                }
            }
            assert forall|k: Seq<char>| after.map().contains_key(k) && k != new_key implies
                after.map()[k] == before.map()[k] by {
                let i = choose|i: int| after.holds(k, i);
                assert(before.holds(k, i));
                after.found(k, i);
                before.found(k, i);
            }
            assert(after.map() =~= before.map().insert(new_key, number));
            assert(after.map() =~= old(self).map().insert(new_key, number));
        }
    }
}

} // verus!
