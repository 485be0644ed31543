use vstd::prelude::*;

verus! {

/// Call counters of a counted collection: one per kind of operation.
#[derive(Clone, Copy, Debug, PartialEq, Eq, Structural)]
pub struct OperationStats {
    pub insert_count: usize,
    pub get_count: usize,
    pub delete_count: usize,
}

impl OperationStats {
    /// All three counters at zero.
    pub open spec fn zero() -> OperationStats {
        OperationStats { insert_count: 0, get_count: 0, delete_count: 0 }
    }

    /// The counters after one more insert call.
    pub open spec fn after_insert(self) -> OperationStats {
        OperationStats { insert_count: (self.insert_count + 1) as usize, ..self }
    }

    /// The counters after one more get call.
    pub open spec fn after_get(self) -> OperationStats {
        OperationStats { get_count: (self.get_count + 1) as usize, ..self }
    }

    /// The counters after one more delete call.
    pub open spec fn after_delete(self) -> OperationStats {
        OperationStats { delete_count: (self.delete_count + 1) as usize, ..self }
    }

    /// Fresh counters, all at zero.
    pub fn new() -> (r: OperationStats)
        ensures
            r == OperationStats::zero(),
    {
        OperationStats { insert_count: 0, get_count: 0, delete_count: 0 }
    }

    pub(crate) fn record_insert(&mut self)
        requires
            old(self).insert_count < usize::MAX,
        ensures
            *final(self) == old(self).after_insert(),
            final(self).insert_count == old(self).insert_count + 1,
    {
        self.insert_count = self.insert_count + 1;
    }

    pub(crate) fn record_get(&mut self)
        requires
            old(self).get_count < usize::MAX,
        ensures
            *final(self) == old(self).after_get(),
            final(self).get_count == old(self).get_count + 1,
    {
        self.get_count = self.get_count + 1;
    }

    pub(crate) fn record_delete(&mut self)
        requires
            old(self).delete_count < usize::MAX,
        ensures
            *final(self) == old(self).after_delete(),
            final(self).delete_count == old(self).delete_count + 1,
    {
        self.delete_count = self.delete_count + 1;
    }
}

impl Default for OperationStats {
    fn default() -> (r: OperationStats)
        ensures
            r == OperationStats::zero(),
    {
        OperationStats::new()
    }
}

} // verus!
