//! A map keyed by identifier that remembers the order in which its keys
//! arrived.
//!
//! Keys are told apart by what they stand for (provider and key text), and no
//! key occurs twice. A new key goes behind the others; replacing the value of
//! a key or removing a key leaves the order of the rest as it was.
use crate::id::Id;
use crate::id::IdView;
use vstd::prelude::*;

verus! {

/// An insertion-ordered map from identifiers to values.
pub struct IdMap<V> {
    entries: Vec<(Id, V)>,
}

impl<V> IdMap<V> {
    /// The keys, oldest first.
    pub closed spec fn keys(&self) -> Seq<IdView> {
        self.entries@.map_values(|e: (Id, V)| e.0@)
    }

    /// The values, in the order of their keys.
    pub closed spec fn values(&self) -> Seq<V> {
        self.entries@.map_values(|e: (Id, V)| e.1)
    }

    /// No key occurs twice.
    #[verifier::type_invariant]
    pub closed spec fn inv(&self) -> bool {
        self.keys().no_duplicates()
    }

    /// Whether `k` is a key of the map.
    pub open spec fn contains_key(&self, k: IdView) -> bool {
        self.keys().contains(k)
    }

    /// An empty map.
    pub fn new() -> (r: Self)
        ensures
            r.keys() == Seq::<IdView>::empty(),
            r.values() == Seq::<V>::empty(),
    {
        let r = IdMap { entries: Vec::new() };
        assert(r.keys() =~= Seq::<IdView>::empty());
        assert(r.values() =~= Seq::<V>::empty());
        r
    }

    /// The number of keys.
    pub fn len(&self) -> (n: usize)
        ensures
            n == self.keys().len(),
            n == self.values().len(),
            self.keys().no_duplicates(),
    {
        proof {
            use_type_invariant(self);
        }
        self.entries.len()
    }

    /// The position of `id` among the keys, if it is one.
    pub fn position(&self, id: &Id) -> (r: Option<usize>)
        ensures
            self.keys().no_duplicates(),
            self.keys().len() == self.values().len(),
            match r {
                Some(i) => i < self.keys().len() && self.keys()[i as int] == id@,
                None => !self.contains_key(id@),
            },
    {
        proof {
            use_type_invariant(self);
        }
        let mut i: usize = 0;
        while i < self.entries.len()
            invariant
                i <= self.entries.len(),
                self.keys().no_duplicates(),
                forall|j: int| 0 <= j < i ==> self.keys()[j] != id@,
            decreases self.entries.len() - i,
        {
            if self.entries[i].0 == *id {
                return Some(i);
            }
            i += 1;
        }
        None
    }

    /// The key at position `i`.
    pub fn key_at(&self, i: usize) -> (r: &Id)
        requires
            i < self.keys().len(),
        ensures
            r@ == self.keys()[i as int],
    {
        &self.entries[i].0
    }

    /// The value at position `i`.
    pub fn value_at(&self, i: usize) -> (r: &V)
        requires
            i < self.values().len(),
        ensures
            *r == self.values()[i as int],
    {
        &self.entries[i].1
    }

    /// Puts `value` under `id`. A new key goes behind the others; the value
    /// of a key that is there already is replaced and handed back.
    pub fn insert(&mut self, id: Id, value: V) -> (r: Option<V>)
        ensures
            final(self).keys().no_duplicates(),
            match r {
                None => {
                    &&& !old(self).contains_key(id@)
                    &&& final(self).keys() == old(self).keys().push(id@)
                    &&& final(self).values() == old(self).values().push(value)
                },
                Some(v) => {
                    &&& old(self).contains_key(id@)
                    &&& v == old(self).values()[old(self).keys().index_of(id@)]
                    &&& final(self).keys() == old(self).keys()
                    &&& final(self).values() == old(self).values().update(
                        old(self).keys().index_of(id@),
                        value,
                    )
                },
            },
    {
        proof {
            use_type_invariant(&*self);
        }
        match self.position(&id) {
            Some(i) => {
                let ghost k = id@;
                let mut entries: Vec<(Id, V)> = Vec::new();
                core::mem::swap(&mut self.entries, &mut entries);
                let (_, v) = entries.remove(i);
                entries.insert(i, (id, value));
                assert(entries@.map_values(|e: (Id, V)| e.0@) =~= old(self).keys());
                self.entries = entries;
                proof {
                    assert(old(self).keys().index_of(k) == i);
                    assert(self.keys() =~= old(self).keys());
                    assert(self.values() =~= old(self).values().update(i as int, value));
                }
                Some(v)
            },
            None => {
                let ghost k = id@;
                let mut entries: Vec<(Id, V)> = Vec::new();
                core::mem::swap(&mut self.entries, &mut entries);
                entries.push((id, value));
                assert(entries@.map_values(|e: (Id, V)| e.0@) =~= old(self).keys().push(k));
                self.entries = entries;
                proof {
                    assert(self.keys() =~= old(self).keys().push(k));
                    assert(self.values() =~= old(self).values().push(value));
                }
                None
            },
        }
    }

    /// Takes `id` and its value out of the map; the rest keeps its order.
    pub fn remove(&mut self, id: &Id) -> (r: Option<V>)
        ensures
            final(self).keys().no_duplicates(),
            match r {
                None => {
                    &&& !old(self).contains_key(id@)
                    &&& final(self).keys() == old(self).keys()
                    &&& final(self).values() == old(self).values()
                },
                Some(v) => {
                    &&& old(self).contains_key(id@)
                    &&& v == old(self).values()[old(self).keys().index_of(id@)]
                    &&& final(self).keys() == old(self).keys().remove(
                        old(self).keys().index_of(id@),
                    )
                    &&& final(self).values() == old(self).values().remove(
                        old(self).keys().index_of(id@),
                    )
                    &&& !final(self).contains_key(id@)
                },
            },
    {
        proof {
            use_type_invariant(&*self);
        }
        match self.position(id) {
            Some(i) => {
                let mut entries: Vec<(Id, V)> = Vec::new();
                core::mem::swap(&mut self.entries, &mut entries);
                let (_, v) = entries.remove(i);
                assert(entries@.map_values(|e: (Id, V)| e.0@) =~= old(self).keys().remove(
                    i as int,
                ));
                self.entries = entries;
                proof {
                    assert(old(self).keys().index_of(id@) == i);
                    assert(self.keys() =~= old(self).keys().remove(i as int));
                    assert(self.values() =~= old(self).values().remove(i as int));
                }
                Some(v)
            },
            None => None,
        }
    }
}

} // verus!
