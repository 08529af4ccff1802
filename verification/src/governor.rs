//! The concurrency governor: a counting permit with fixed capacity that
//! caps how many link pipelines are in flight at once.

use vstd::prelude::*;

verus! {

/// Permit accounting for the bounded fan-out of enrichment pipelines. One
/// permit is taken before a link's pipeline runs and handed back exactly
/// once when that pipeline finishes, whatever its outcome. The unverified
/// driver owns the actual scheduling; this type is the arithmetic it must
/// follow, and its contracts show the count can never pass the capacity.
pub struct ConcurrencyGovernor {
    pub capacity: usize,
    pub in_flight: usize,
}

impl ConcurrencyGovernor {
    /// The governor's invariant: never more permits out than the capacity.
    pub open spec fn wf(&self) -> bool {
        self.in_flight <= self.capacity
    }

    /// A fresh governor with `capacity` slots, none taken.
    pub fn new(capacity: usize) -> (g: ConcurrencyGovernor)
        ensures
            g.capacity == capacity,
            g.in_flight == 0,
            g.wf(),
    {
        ConcurrencyGovernor { capacity, in_flight: 0 }
    }

    /// Take a permit if one is free. Succeeds exactly when the count is
    /// below the capacity; a caller that is refused must wait and retry.
    pub fn try_acquire(&mut self) -> (ok: bool)
        requires
            old(self).wf(),
        ensures
            final(self).capacity == old(self).capacity,
            final(self).wf(),
            ok == (old(self).in_flight < old(self).capacity),
            ok ==> final(self).in_flight == old(self).in_flight + 1,
            !ok ==> final(self).in_flight == old(self).in_flight,
    {
        if self.in_flight < self.capacity {
            self.in_flight = self.in_flight + 1;
            true
        } else {
            false
        }
    }

    /// Hand a permit back. Called exactly once per finished pipeline, on
    /// every exit path, so a failing pipeline can never leak its slot.
    pub fn release(&mut self)
        requires
            old(self).wf(),
            old(self).in_flight > 0,
        ensures
            final(self).capacity == old(self).capacity,
            final(self).in_flight == old(self).in_flight - 1,
            final(self).wf(),
    {
        self.in_flight = self.in_flight - 1;
    }
}

/// Bounded-concurrency law: however many pipelines are dispatched, a
/// well-formed governor never has more in flight than its capacity. Since
/// `new` establishes `wf` and both `try_acquire` and `release` preserve it,
/// the count observed after any sequence of operations obeys this bound.
pub proof fn lemma_governor_never_exceeds_capacity(g: ConcurrencyGovernor)
    requires
        g.wf(),
    ensures
        g.in_flight <= g.capacity,
{
}

} // verus!
