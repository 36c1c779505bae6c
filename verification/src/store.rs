//! An ordered mapping from 64-bit keys to records.

use std::collections::BTreeMap;
use vstd::prelude::*;
use vstd::std_specs::btree::increasing_seq;
use vstd::std_specs::cmp::OrdSpec;

verus! {

/// Records of one entity class, each under a unique key, kept in ascending
/// key order.
pub struct EntityStore<V> {
    records: BTreeMap<u64, V>,
}

impl<V> View for EntityStore<V> {
    type V = Map<u64, V>;

    closed spec fn view(&self) -> Map<u64, V> {
        self.records@
    }
}

impl<V> EntityStore<V> {
    /// A store that holds nothing.
    pub fn new() -> (store: Self)
        ensures
            store@ == Map::<u64, V>::empty(),
    {
        EntityStore { records: BTreeMap::new() }
    }

    /// The record under `key`, if there is one.
    pub fn get(&self, key: u64) -> (found: Option<&V>)
        ensures
            match found {
                Some(record) => self@.contains_key(key) && *record == self@[key],
                None => !self@.contains_key(key),
            },
    {
        self.records.get(&key)
    }

    /// Whether a record is stored under `key`.
    pub fn contains(&self, key: u64) -> (present: bool)
        ensures
            present == self@.contains_key(key),
    {
        self.records.contains_key(&key)
    }

    /// Stores `record` under `key`, in place of whatever was there.
    pub fn upsert(&mut self, key: u64, record: V)
        ensures
            final(self)@ == old(self)@.insert(key, record),
    {
        self.records.insert(key, record);
    }

    /// Takes out the record under `key` and returns it; without such a
    /// record the store stays as it is.
    pub fn remove(&mut self, key: u64) -> (removed: Option<V>)
        ensures
            final(self)@ == old(self)@.remove(key),
            match removed {
                Some(record) => old(self)@.contains_key(key) && record == old(self)@[key],
                None => !old(self)@.contains_key(key),
            },
    {
        self.records.remove(&key)
    }

    /// Every key with its record, in ascending key order.
    pub fn iterate(&self) -> (entries: Vec<(u64, &V)>)
        ensures
            entries@.len() == self@.len(),
            forall|i: int|
                0 <= i < entries@.len() ==> self@.contains_key(#[trigger] entries@[i].0)
                    && *entries@[i].1 == self@[entries@[i].0],
            forall|i: int, j: int|
                0 <= i < j < entries@.len() ==> #[trigger] entries@[i].0 < #[trigger] entries@[j].0,
            forall|key: u64| #[trigger]
                self@.contains_key(key) ==> exists|i: int|
                    0 <= i < entries@.len() && (#[trigger] entries@[i]).0 == key,
    {
        let mut entries: Vec<(u64, &V)> = Vec::new();
        for pair in it: self.records.iter()
            invariant
                entries@.len() == it.index(),
                forall|i: int|
                    #![trigger entries@[i]]
                    #![trigger it.seq()[i]]
                    0 <= i < it.index() ==> entries@[i].0 == *it.seq()[i].0 && entries@[i].1
                        == it.seq()[i].1,
                forall|key: u64| #[trigger]
                    self@.contains_key(key) ==> it.seq().contains((&key, &self@[key])),
                increasing_seq(it.seq().map_values(|kv: (&u64, &V)| *kv.0)),
                forall|i: int, j: int|
                    0 <= i < j < entries@.len() ==> #[trigger] entries@[i].0
                        < #[trigger] entries@[j].0,
        {
            proof {
                let keys = it.seq().map_values(|kv: (&u64, &V)| *kv.0);
                let at = it.index();
                assert forall|i: int| 0 <= i < entries@.len() implies (#[trigger] entries@[i]).0
                    < *pair.0 by {
                    assert(keys[i] == entries@[i].0);
                    assert(keys[at] == *pair.0);
                    assert(keys[i].cmp_spec(&keys[at]) is Less);
                }
            }
            entries.push((*pair.0, pair.1));
        }
        entries
    }
}

} // verus!
