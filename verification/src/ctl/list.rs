//! The agents that have announced themselves.
use std::collections::HashSet;
use vstd::prelude::*;
use vstd::std_specs::hash::*;

verus! {

/// The agents seen so far, by their identifiers.
pub struct Sightings {
    seen: HashSet<u16>,
}

impl View for Sightings {
    type V = Set<u16>;

    closed spec fn view(&self) -> Set<u16> {
        self.seen@
    }
}

impl Sightings {
    /// Nothing seen yet.
    pub fn new() -> (sightings: Sightings)
        ensures
            sightings@ == Set::<u16>::empty(),
    {
        Sightings { seen: HashSet::new() }
    }

    /// Notes that the agent `vtap_id` announced itself and tells whether it
    /// did so for the first time, in which case it is to be listed.
    pub fn first_sight(&mut self, vtap_id: u16) -> (first: bool)
        ensures
            first == !old(self)@.contains(vtap_id),
            final(self)@ == old(self)@.insert(vtap_id),
    {
        broadcast use group_hash_axioms;

        if !self.seen.contains(&vtap_id) {
            self.seen.insert(vtap_id);
            true
        } else {
            assert(self@.insert(vtap_id) == self@);
            false
        }
    }
}

} // verus!
