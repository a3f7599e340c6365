//! The pending-removal registry: the set of users the reconciler has removed
//! from the group and whose platform-generated departure notice is still
//! awaited. An entry lives from the corrective call until the notice is
//! suppressed (success path) or the correction is rolled back.

use vstd::prelude::*;
use std::collections::HashSet;

verus! {

broadcast use vstd::std_specs::hash::group_hash_axioms;

/// The set of user identifiers awaiting their group-departure notice.
///
/// A user is in the registry exactly when the reconciler removed it from the
/// group in response to a channel departure and the group's own notice about
/// that removal has not yet been seen. The surrounding process guards one
/// registry with a single lock; each method here is one atomic step of the
/// protocol, including the combined check-and-remove that
/// [`PendingRemovals::remove`] provides.
pub struct PendingRemovals {
    ids: HashSet<u64>,
}

impl View for PendingRemovals {
    type V = Set<u64>;

    closed spec fn view(&self) -> Set<u64> {
        self.ids@
    }
}

impl PendingRemovals {
    /// An empty registry, as each process starts with.
    pub fn new() -> (s: Self)
        ensures
            s@ == Set::<u64>::empty(),
    {
        PendingRemovals { ids: HashSet::new() }
    }

    /// Records that `user_id` now awaits its departure notice. Returns true
    /// when the entry is new.
    pub fn add(&mut self, user_id: u64) -> (newly_inserted: bool)
        ensures
            final(self)@ == old(self)@.insert(user_id),
            newly_inserted == !old(self)@.contains(user_id),
    {
        self.ids.insert(user_id)
    }

    /// Removes `user_id`, reporting whether it was present: one atomic
    /// check-and-remove, so two callers cannot both see the entry.
    pub fn remove(&mut self, user_id: u64) -> (was_present: bool)
        ensures
            final(self)@ == old(self)@.remove(user_id),
            was_present == old(self)@.contains(user_id),
    {
        self.ids.remove(&user_id)
    }

    /// Whether `user_id` currently awaits its departure notice.
    pub fn contains(&self, user_id: u64) -> (present: bool)
        ensures
            present == self@.contains(user_id),
    {
        self.ids.contains(&user_id)
    }

    /// How many users currently await a notice.
    pub fn len(&self) -> (n: usize)
        ensures
            n == self@.len(),
    {
        self.ids.len()
    }
}

} // verus!
