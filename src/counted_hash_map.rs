use std::collections::HashMap;
use std::hash::Hash;

use vstd::prelude::*;
use vstd::std_specs::hash::obeys_key_model;

use crate::stats::OperationStats;

verus! {

/// The value that `entries` holds for `key`, if any.
pub open spec fn map_lookup<K, V>(entries: Map<K, V>, key: K) -> Option<V> {
    if entries.contains_key(key) {
        Some(entries[key])
    } else {
        None
    }
}

/// One call on a counted map, as a value to reason about runs of calls.
pub enum MapCall<K, V> {
    Insert(K, V),
    Get(K),
    Delete(K),
    ResetStats,
}

/// Entries and counters of a counted map after `call`, from `state`.
pub open spec fn map_step<K, V>(state: (Map<K, V>, OperationStats), call: MapCall<K, V>) -> (
    Map<K, V>,
    OperationStats,
) {
    let (entries, counts) = state;
    match call {
        MapCall::Insert(key, value) => (entries.insert(key, value), counts.after_insert()),
        MapCall::Get(_) => (entries, counts.after_get()),
        MapCall::Delete(key) => (entries.remove(key), counts.after_delete()),
        MapCall::ResetStats => (entries, OperationStats::zero()),
    }
}

/// Entries and counters of a counted map after `calls`, in order, from
/// `state`.
pub open spec fn map_run<K, V>(state: (Map<K, V>, OperationStats), calls: Seq<MapCall<K, V>>) -> (
    Map<K, V>,
    OperationStats,
)
    decreases calls.len(),
{
    if calls.len() == 0 {
        state
    } else {
        map_step(map_run(state, calls.drop_last()), calls.last())
    }
}

/// A `HashMap` that counts the insert, get and delete calls made through it.
///
/// What the contracts say of the entries holds where the key type's `Eq` and
/// `Hash` behave as a hash table needs (`obeys_key_model`), as they do for
/// the primitive types; the counters are exact for every key type.
#[derive(Debug, Clone)]
pub struct CountedHashMap<K, V> {
    inner: HashMap<K, V>,
    stats: OperationStats,
}

impl<K, V> View for CountedHashMap<K, V> {
    type V = Map<K, V>;

    /// The entries, key to value.
    closed spec fn view(&self) -> Map<K, V> {
        self.inner@
    }
}

impl<K: Eq + Hash, V> CountedHashMap<K, V> {
    /// The current counters.
    pub closed spec fn counts(&self) -> OperationStats {
        self.stats
    }

    /// An empty map with all counters at zero.
    pub fn new() -> (r: CountedHashMap<K, V>)
        ensures
            r@ == Map::<K, V>::empty(),
            r.counts() == OperationStats::zero(),
    {
        CountedHashMap { inner: HashMap::new(), stats: OperationStats::new() }
    }

    /// As `new`, with room reserved for `capacity` entries.
    pub fn with_capacity(capacity: usize) -> (r: CountedHashMap<K, V>)
        ensures
            r@ == Map::<K, V>::empty(),
            r.counts() == OperationStats::zero(),
    {
        CountedHashMap { inner: HashMap::with_capacity(capacity), stats: OperationStats::new() }
    }

    /// Maps `key` to `value`, returning the value it replaced, if any.
    pub fn insert(&mut self, key: K, value: V) -> (r: Option<V>)
        requires
            old(self).counts().insert_count < usize::MAX,
        ensures
            final(self).counts() == old(self).counts().after_insert(),
            obeys_key_model::<K>() ==> {
                &&& final(self)@ == old(self)@.insert(key, value)
                &&& r == map_lookup(old(self)@, key)
            },
    {
        self.stats.record_insert();
        self.inner.insert(key, value)
    }

    /// The value for `key`, or `None` where there is none; counted in either
    /// case.
    pub fn get(&mut self, key: &K) -> (r: Option<&V>)
        requires
            old(self).counts().get_count < usize::MAX,
        ensures
            final(self)@ == old(self)@,
            final(self).counts() == old(self).counts().after_get(),
            obeys_key_model::<K>() ==> match r {
                Some(v) => map_lookup(old(self)@, *key) == Some(*v),
                None => map_lookup(old(self)@, *key) is None,
            },
    {
        self.stats.record_get();
        self.inner.get(key)
    }

    /// Removes the entry for `key` and returns its value; where there is none,
    /// `None` and nothing changes. Counted in either case.
    pub fn delete(&mut self, key: &K) -> (r: Option<V>)
        requires
            old(self).counts().delete_count < usize::MAX,
        ensures
            final(self).counts() == old(self).counts().after_delete(),
            obeys_key_model::<K>() ==> {
                &&& final(self)@ == old(self)@.remove(*key)
                &&& r == map_lookup(old(self)@, *key)
            },
    {
        self.stats.record_delete();
        self.inner.remove(key)
    }

    /// The current counters.
    pub fn stats(&self) -> (r: &OperationStats)
        ensures
            *r == self.counts(),
    {
        &self.stats
    }

    /// Sets all counters back to zero; the entries stay.
    pub fn reset_stats(&mut self)
        ensures
            final(self)@ == old(self)@,
            final(self).counts() == OperationStats::zero(),
    {
        self.stats = OperationStats::new();
    }

    /// The number of entries.
    pub fn len(&self) -> (r: usize)
        ensures
            obeys_key_model::<K>() ==> r == self@.len(),
    {
        self.inner.len()
    }

    /// Whether there are no entries.
    pub fn is_empty(&self) -> (r: bool)
        ensures
            r == (self@.len() == 0),
    {
        self.inner.is_empty()
    }

    /// Ends the wrapper, handing back the entries and the counters.
    pub fn into_inner(self) -> (r: (HashMap<K, V>, OperationStats))
        ensures
            r.0@ == self@,
            r.1 == self.counts(),
    {
        (self.inner, self.stats)
    }

    /// The wrapped `HashMap`, read without counting.
    pub fn inner(&self) -> (r: &HashMap<K, V>)
        ensures
            r@ == self@,
    {
        &self.inner
    }

    /// The wrapped `HashMap`, open to change without counting.
    pub fn inner_mut(&mut self) -> (r: &mut HashMap<K, V>)
        ensures
            r@ == old(self)@,
            final(self)@ == final(r)@,
            final(self).counts() == old(self).counts(),
    {
        &mut self.inner
    }
}

impl<K: Eq + Hash, V> Default for CountedHashMap<K, V> {
    fn default() -> (r: CountedHashMap<K, V>)
        ensures
            r@ == Map::<K, V>::empty(),
            r.counts() == OperationStats::zero(),
    {
        CountedHashMap::new()
    }
}

} // verus!
