use vstd::prelude::*;

use crate::stats::OperationStats;

verus! {

/// The element at `index` of `items`, if there is one.
pub open spec fn seq_lookup<T>(items: Seq<T>, index: int) -> Option<T> {
    if 0 <= index < items.len() {
        Some(items[index])
    } else {
        None
    }
}

/// `items` without the element at `index`; `items` itself where there is none.
pub open spec fn seq_without<T>(items: Seq<T>, index: int) -> Seq<T> {
    if 0 <= index < items.len() {
        items.remove(index)
    } else {
        items
    }
}

/// One call on a counted sequence, as a value to reason about runs of calls.
pub enum VecCall<T> {
    Insert(T),
    Get(usize),
    Delete(usize),
    ResetStats,
}

/// Elements and counters of a counted sequence after `call`, from `state`.
pub open spec fn vec_step<T>(state: (Seq<T>, OperationStats), call: VecCall<T>) -> (
    Seq<T>,
    OperationStats,
) {
    let (items, counts) = state;
    match call {
        VecCall::Insert(value) => (items.push(value), counts.after_insert()),
        VecCall::Get(_) => (items, counts.after_get()),
        VecCall::Delete(index) => (seq_without(items, index as int), counts.after_delete()),
        VecCall::ResetStats => (items, OperationStats::zero()),
    }
}

/// Elements and counters of a counted sequence after `calls`, in order, from
/// `state`.
pub open spec fn vec_run<T>(state: (Seq<T>, OperationStats), calls: Seq<VecCall<T>>) -> (
    Seq<T>,
    OperationStats,
)
    decreases calls.len(),
{
    if calls.len() == 0 {
        state
    } else {
        vec_step(vec_run(state, calls.drop_last()), calls.last())
    }
}

/// A `Vec` that counts the insert, get and delete calls made through it.
#[derive(Debug, Clone)]
pub struct CountedVec<T> {
    inner: Vec<T>,
    stats: OperationStats,
}

impl<T> View for CountedVec<T> {
    type V = Seq<T>;

    /// The elements, in order.
    closed spec fn view(&self) -> Seq<T> {
        self.inner@
    }
}

impl<T> CountedVec<T> {
    /// The current counters.
    pub closed spec fn counts(&self) -> OperationStats {
        self.stats
    }

    /// An empty sequence with all counters at zero.
    pub fn new() -> (r: CountedVec<T>)
        ensures
            r@ == Seq::<T>::empty(),
            r.counts() == OperationStats::zero(),
    {
        CountedVec { inner: Vec::new(), stats: OperationStats::new() }
    }

    /// As `new`, with room reserved for `capacity` elements.
    pub fn with_capacity(capacity: usize) -> (r: CountedVec<T>)
        ensures
            r@ == Seq::<T>::empty(),
            r.counts() == OperationStats::zero(),
    {
        CountedVec { inner: Vec::with_capacity(capacity), stats: OperationStats::new() }
    }

    /// Appends `value` at the end.
    pub fn insert(&mut self, value: T)
        requires
            old(self).counts().insert_count < usize::MAX,
        ensures
            final(self)@ == old(self)@.push(value),
            final(self).counts() == old(self).counts().after_insert(),
    {
        self.stats.record_insert();
        self.inner.push(value);
    }

    /// The element at `index`, or `None` past the end; counted in either case.
    pub fn get(&mut self, index: usize) -> (r: Option<&T>)
        requires
            old(self).counts().get_count < usize::MAX,
        ensures
            final(self)@ == old(self)@,
            final(self).counts() == old(self).counts().after_get(),
            match r {
                Some(v) => seq_lookup(old(self)@, index as int) == Some(*v),
                None => seq_lookup(old(self)@, index as int) is None,
            },
    {
        self.stats.record_get();
        if index < self.inner.len() {
            Some(&self.inner[index])
        } else {
            None
        }
    }

    /// Removes and returns the element at `index`, moving the later ones one
    /// place forward; past the end, `None` and nothing changes. Counted in
    /// either case.
    pub fn delete(&mut self, index: usize) -> (r: Option<T>)
        requires
            old(self).counts().delete_count < usize::MAX,
        ensures
            r == seq_lookup(old(self)@, index as int),
            final(self)@ == seq_without(old(self)@, index as int),
            final(self).counts() == old(self).counts().after_delete(),
    {
        self.stats.record_delete();
        if index < self.inner.len() {
            Some(self.inner.remove(index))
        } else {
            None
        }
    }

    /// The current counters.
    pub fn stats(&self) -> (r: &OperationStats)
        ensures
            *r == self.counts(),
    {
        &self.stats
    }

    /// Sets all counters back to zero; the elements stay.
    pub fn reset_stats(&mut self)
        ensures
            final(self)@ == old(self)@,
            final(self).counts() == OperationStats::zero(),
    {
        self.stats = OperationStats::new();
    }

    /// The number of elements.
    pub fn len(&self) -> (r: usize)
        ensures
            r == self@.len(),
    {
        self.inner.len()
    }

    /// Whether there are no elements.
    pub fn is_empty(&self) -> (r: bool)
        ensures
            r == (self@.len() == 0),
    {
        self.inner.is_empty()
    }
    /// Ends the wrapper, handing back the elements and the counters.
    pub fn into_inner(self) -> (r: (Vec<T>, OperationStats))
        ensures
            r.0@ == self@,
            r.1 == self.counts(),
    {
        (self.inner, self.stats)
    }

    /// The wrapped `Vec`, read without counting.
    pub fn inner(&self) -> (r: &Vec<T>)
        ensures
            r@ == self@,
    {
        &self.inner
    }

    /// The wrapped `Vec`, open to change without counting.
    pub fn inner_mut(&mut self) -> (r: &mut Vec<T>)
        ensures
            r@ == old(self)@,
            final(self)@ == final(r)@,
            final(self).counts() == old(self).counts(),
    {
        &mut self.inner
    }
}

impl<T> Default for CountedVec<T> {
    fn default() -> (r: CountedVec<T>)
        ensures
            r@ == Seq::<T>::empty(),
            r.counts() == OperationStats::zero(),
    {
        CountedVec::new()
    }
}

} // verus!
