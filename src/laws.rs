//! Facts about runs of calls on the counted collections, stated over the
//! step functions that the methods' contracts follow.
use vstd::prelude::*;

use crate::counted_hash_map::{map_run, MapCall};
use crate::counted_vec::{vec_run, VecCall};
use crate::stats::OperationStats;

verus! {

/// One insert call for each of `values`, in order.
pub open spec fn vec_insert_calls<T>(values: Seq<T>) -> Seq<VecCall<T>> {
    values.map_values(|value: T| VecCall::Insert(value))
}

/// One get call for each of `indices`, in order.
pub open spec fn vec_get_calls<T>(indices: Seq<usize>) -> Seq<VecCall<T>> {
    indices.map_values(|index: usize| VecCall::<T>::Get(index))
}

/// One delete call for each of `indices`, in order.
pub open spec fn vec_delete_calls<T>(indices: Seq<usize>) -> Seq<VecCall<T>> {
    indices.map_values(|index: usize| VecCall::<T>::Delete(index))
}

/// One insert call for each key and value of `entries`, in order.
pub open spec fn map_insert_calls<K, V>(entries: Seq<(K, V)>) -> Seq<MapCall<K, V>> {
    entries.map_values(|entry: (K, V)| MapCall::Insert(entry.0, entry.1))
}

/// One get call for each of `keys`, in order.
pub open spec fn map_get_calls<K, V>(keys: Seq<K>) -> Seq<MapCall<K, V>> {
    keys.map_values(|key: K| MapCall::<K, V>::Get(key))
}

/// One delete call for each of `keys`, in order.
pub open spec fn map_delete_calls<K, V>(keys: Seq<K>) -> Seq<MapCall<K, V>> {
    keys.map_values(|key: K| MapCall::<K, V>::Delete(key))
}

/// `counts` with its insert counter raised by `n`.
pub open spec fn plus_inserts(counts: OperationStats, n: nat) -> OperationStats {
    OperationStats { insert_count: (counts.insert_count + n) as usize, ..counts }
}

/// `counts` with its get counter raised by `n`.
pub open spec fn plus_gets(counts: OperationStats, n: nat) -> OperationStats {
    OperationStats { get_count: (counts.get_count + n) as usize, ..counts }
}

/// `counts` with its delete counter raised by `n`.
pub open spec fn plus_deletes(counts: OperationStats, n: nat) -> OperationStats {
    OperationStats { delete_count: (counts.delete_count + n) as usize, ..counts }
}

/// After n inserts into a new counted sequence, it holds exactly the n values
/// inserted, in order, so its length is n, and its insert counter is n while
/// the other two stay at zero.
pub proof fn lemma_vec_inserts<T>(values: Seq<T>)
    requires
        values.len() <= usize::MAX,
    ensures
        vec_run((Seq::empty(), OperationStats::zero()), vec_insert_calls(values)).0 == values,
        vec_run((Seq::empty(), OperationStats::zero()), vec_insert_calls(values)).0.len()
            == values.len(),
        vec_run((Seq::empty(), OperationStats::zero()), vec_insert_calls(values)).1 == plus_inserts(
            OperationStats::zero(),
            values.len(),
        ),
    decreases values.len(),
{
    if values.len() > 0 {
        let prefix = values.drop_last();
        lemma_vec_inserts(prefix);
        assert(vec_insert_calls(values).drop_last() =~= vec_insert_calls(prefix));
        assert(prefix.push(values.last()) =~= values);
    }
}

/// After k get calls on a counted sequence, hits and misses alike, the get
/// counter has risen by k, and the elements and the other counters are as
/// they were.
pub proof fn lemma_vec_gets_counted<T>(items: Seq<T>, counts: OperationStats, indices: Seq<usize>)
    requires
        counts.get_count + indices.len() <= usize::MAX,
    ensures
        vec_run((items, counts), vec_get_calls(indices)) == (items, plus_gets(counts, indices.len())),
    decreases indices.len(),
{
    if indices.len() > 0 {
        let prefix = indices.drop_last();
        lemma_vec_gets_counted::<T>(items, counts, prefix);
        assert(vec_get_calls::<T>(indices).drop_last() =~= vec_get_calls::<T>(prefix));
    }
}

/// After k delete calls on a counted sequence, hits and misses alike, the
/// delete counter has risen by k and the other counters are as they were.
pub proof fn lemma_vec_deletes_counted<T>(
    items: Seq<T>,
    counts: OperationStats,
    indices: Seq<usize>,
)
    requires
        counts.delete_count + indices.len() <= usize::MAX,
    ensures
        vec_run((items, counts), vec_delete_calls(indices)).1 == plus_deletes(
            counts,
            indices.len(),
        ),
    decreases indices.len(),
{
    if indices.len() > 0 {
        let prefix = indices.drop_last();
        lemma_vec_deletes_counted::<T>(items, counts, prefix);
        assert(vec_delete_calls::<T>(indices).drop_last() =~= vec_delete_calls::<T>(prefix));
    }
}

/// The elements that a run of calls leaves depend on the elements it starts
/// from and the calls alone, never on the counters: replaying on a new
/// counted sequence the calls that built a container builds it again.
pub proof fn lemma_vec_run_ignores_counts<T>(
    items: Seq<T>,
    counts: OperationStats,
    other_counts: OperationStats,
    calls: Seq<VecCall<T>>,
)
    ensures
        vec_run((items, counts), calls).0 == vec_run((items, other_counts), calls).0,
    decreases calls.len(),
{
    if calls.len() > 0 {
        lemma_vec_run_ignores_counts(items, counts, other_counts, calls.drop_last());
    }
}

/// After n inserts into a new counted map its insert counter is n and the
/// other two stay at zero; where the n keys are pairwise distinct, it holds
/// exactly n entries.
pub proof fn lemma_map_inserts<K, V>(entries: Seq<(K, V)>)
    requires
        entries.len() <= usize::MAX,
    ensures
        map_run((Map::empty(), OperationStats::zero()), map_insert_calls(entries)).1
            == plus_inserts(OperationStats::zero(), entries.len()),
        map_run((Map::empty(), OperationStats::zero()), map_insert_calls(entries)).0.dom()
            == entries.map_values(|entry: (K, V)| entry.0).to_set(),
        entries.map_values(|entry: (K, V)| entry.0).no_duplicates() ==> map_run(
            (Map::empty(), OperationStats::zero()),
            map_insert_calls(entries),
        ).0.len() == entries.len(),
    decreases entries.len(),
{
    let keys = entries.map_values(|entry: (K, V)| entry.0);
    if entries.len() == 0 {
        assert(keys.to_set() =~= Set::empty());
    } else {
        let prefix = entries.drop_last();
        let prefix_keys = prefix.map_values(|entry: (K, V)| entry.0);
        lemma_map_inserts(prefix);
        assert(map_insert_calls(entries).drop_last() =~= map_insert_calls(prefix));
        assert(keys =~= prefix_keys.push(entries.last().0));
        prefix_keys.lemma_push_to_set_commute(entries.last().0);
        prefix_keys.lemma_cardinality_of_set();
        if keys.no_duplicates() {
            assert(prefix_keys.no_duplicates()) by {
                assert forall|i: int, j: int|
                    0 <= i < prefix_keys.len() && 0 <= j < prefix_keys.len() && i != j implies
                    prefix_keys[i] != prefix_keys[j] by {
                    assert(keys[i] == prefix_keys[i] && keys[j] == prefix_keys[j]);
                }
            }
            assert(!prefix_keys.contains(entries.last().0)) by {
                if prefix_keys.contains(entries.last().0) {
                    let i = choose|i: int| 0 <= i < prefix_keys.len() && prefix_keys[i] == entries.last().0;
                    assert(keys[i] == keys[keys.len() - 1]);
                }
            }
        }
    }
}

/// After k get calls on a counted map, hits and misses alike, the get counter
/// has risen by k, and the entries and the other counters are as they were.
pub proof fn lemma_map_gets_counted<K, V>(entries: Map<K, V>, counts: OperationStats, keys: Seq<K>)
    requires
        counts.get_count + keys.len() <= usize::MAX,
    ensures
        map_run((entries, counts), map_get_calls(keys)) == (entries, plus_gets(counts, keys.len())),
    decreases keys.len(),
{
    if keys.len() > 0 {
        let prefix = keys.drop_last();
        lemma_map_gets_counted::<K, V>(entries, counts, prefix);
        assert(map_get_calls::<K, V>(keys).drop_last() =~= map_get_calls::<K, V>(prefix));
    }
}

/// After k delete calls on a counted map, hits and misses alike, the delete
/// counter has risen by k and the other counters are as they were.
pub proof fn lemma_map_deletes_counted<K, V>(
    entries: Map<K, V>,
    counts: OperationStats,
    keys: Seq<K>,
)
    requires
        counts.delete_count + keys.len() <= usize::MAX,
    ensures
        map_run((entries, counts), map_delete_calls(keys)).1 == plus_deletes(counts, keys.len()),
    decreases keys.len(),
{
    if keys.len() > 0 {
        let prefix = keys.drop_last();
        lemma_map_deletes_counted::<K, V>(entries, counts, prefix);
        assert(map_delete_calls::<K, V>(keys).drop_last() =~= map_delete_calls::<K, V>(prefix));
    }
}

/// The entries that a run of calls leaves depend on the entries it starts
/// from and the calls alone, never on the counters: replaying on a new
/// counted map the calls that built a container builds it again.
pub proof fn lemma_map_run_ignores_counts<K, V>(
    entries: Map<K, V>,
    counts: OperationStats,
    other_counts: OperationStats,
    calls: Seq<MapCall<K, V>>,
)
    ensures
        map_run((entries, counts), calls).0 == map_run((entries, other_counts), calls).0,
    decreases calls.len(),
{
    if calls.len() > 0 {
        lemma_map_run_ignores_counts(entries, counts, other_counts, calls.drop_last());
    }
}

} // verus!
