//! Shared-state handoff: one-time transfer of a hardware-owning resource from
//! the initialization context to the interrupt context.
//!
//! On the target the slot is a process-wide interrupt-safe container and the
//! cache is handler-local persistent storage. The initialization context
//! populates the slot once, inside a critical section, before the interrupt
//! is unmasked; the handler empties it once, on its first firing, also inside
//! a critical section, and afterwards reaches the resource directly through
//! its cache, at zero synchronization cost. The `extractions` counter
//! instruments the slot: it counts the critical-section extractions, and the
//! invariant pins it at one for the whole life of the process.

use vstd::prelude::*;

verus! {

/// A handoff pair for one resource: the shared slot and the handler-local
/// cache. At most one of the two ever holds the resource.
pub struct Handoff<T> {
    /// The shared slot, written once by the initialization context.
    pub slot: Option<T>,
    /// The handler-local storage, filled on the handler's first resolution.
    pub cache: Option<T>,
    /// How many times the slot was emptied inside a critical section.
    pub extractions: u64,
}

impl<T> Handoff<T> {
    /// The handoff discipline: slot and cache are never populated at the same
    /// time, the slot is emptied at most once, and the cache is populated
    /// exactly by that one extraction.
    pub open spec fn inv(self) -> bool {
        &&& !(self.slot is Some && self.cache is Some)
        &&& self.extractions <= 1
        &&& (self.slot is Some ==> self.extractions == 0)
        &&& (self.cache is Some ==> self.extractions == 1)
    }

    /// Some context holds the resource.
    pub open spec fn holds(self) -> bool {
        self.slot is Some || self.cache is Some
    }

    /// The resource, wherever it is held.
    pub open spec fn resource(self) -> T
        recommends
            self.holds(),
    {
        if self.cache is Some {
            self.cache.unwrap()
        } else {
            self.slot.unwrap()
        }
    }

    /// An empty handoff, as the process starts.
    pub fn new() -> (r: Handoff<T>)
        ensures
            r.inv(),
            r.slot is None,
            r.cache is None,
            r.extractions == 0,
    {
        Handoff { slot: None, cache: None, extractions: 0 }
    }

    /// Populates the slot, called once from the initialization context inside
    /// a critical section. A populated slot is a logic error, excluded here.
    pub fn store(&mut self, resource: T)
        requires
            old(self).inv(),
            old(self).slot is None,
            old(self).cache is None,
            old(self).extractions == 0,
        ensures
            final(self).inv(),
            final(self).slot == Some(resource),
            final(self).cache is None,
            final(self).extractions == 0,
    {
        self.slot = Some(resource);
    }

    /// Resolves the resource into the cache: the common path, for every
    /// firing after the first, finds the cache populated and touches nothing;
    /// the first firing alone enters a critical section and moves the
    /// resource out of the slot, leaving the slot empty for good.
    pub fn resolve(&mut self)
        requires
            old(self).inv(),
            old(self).holds(),
        ensures
            final(self).inv(),
            final(self).cache is Some,
            final(self).slot is None,
            final(self).cache.unwrap() == old(self).resource(),
            final(self).extractions == 1,
            old(self).cache is Some ==> *final(self) == *old(self),
            old(self).cache is None ==> final(self).extractions == old(self).extractions + 1,
    {
        if self.cache.is_none() {
            // the one critical-section extraction
            let moved = self.slot.take();
            self.cache = moved;
            self.extractions = self.extractions + 1;
        }
    }
}

/// Mutual exclusivity of the handoff: at no instant at which the discipline
/// holds are a resource's slot and its cache both populated.
pub proof fn lemma_slot_cache_exclusive<T>(h: Handoff<T>)
    requires
        h.inv(),
    ensures
        !(h.slot is Some && h.cache is Some),
{
}

} // verus!
