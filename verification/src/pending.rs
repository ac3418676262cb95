//! The table of calls that wait for their response.

use std::collections::HashMap;
use vstd::prelude::*;

verus! {

broadcast use vstd::std_specs::hash::group_hash_axioms;

/// Maps the id of each call in flight to the completion slot of its caller.
///
/// `S` is whatever the caller uses to hand a response to a waiter. The table
/// holds at most one slot per id, and a slot leaves it at most once.
#[derive(Debug)]
pub struct PendingCallTable<S> {
    slots: HashMap<usize, S>,
}

impl<S> View for PendingCallTable<S> {
    type V = Map<usize, S>;

    closed spec fn view(&self) -> Map<usize, S> {
        self.slots@
    }
}

impl<S> PendingCallTable<S> {
    /// A table with no call in flight.
    pub fn new() -> (table: Self)
        ensures
            table@ == Map::<usize, S>::empty(),
    {
        PendingCallTable { slots: HashMap::new() }
    }

    /// Puts `slot` under `id`. A slot that was there before is dropped, which
    /// its waiter observes as a closed connection.
    pub fn register(&mut self, id: usize, slot: S)
        ensures
            final(self)@ == old(self)@.insert(id, slot),
    {
        let _ = self.slots.insert(id, slot);
    }

    /// Takes the slot of `id` out of the table, if there is one. Every other
    /// entry stays as it was.
    pub fn take(&mut self, id: usize) -> (slot: Option<S>)
        ensures
            match slot {
                Some(s) => old(self)@.contains_key(id) && s == old(self)@[id],
                None => !old(self)@.contains_key(id),
            },
            final(self)@ == old(self)@.remove(id),
    {
        self.slots.remove(&id)
    }

    /// Gives up every call in flight: the table is emptied and its slots are
    /// dropped, which their waiters observe as a closed connection.
    pub fn clear(&mut self)
        ensures
            final(self)@ == Map::<usize, S>::empty(),
    {
        self.slots.clear();
    }

    /// Whether a call with this id is in flight.
    pub fn contains(&self, id: usize) -> (found: bool)
        ensures
            found == self@.contains_key(id),
    {
        self.slots.contains_key(&id)
    }

    /// The number of calls in flight.
    pub fn len(&self) -> (count: usize)
        ensures
            count == self@.len(),
    {
        self.slots.len()
    }

    /// Whether no call is in flight.
    pub fn is_empty(&self) -> (empty: bool)
        ensures
            empty == self@.is_empty(),
    {
        self.slots.is_empty()
    }
}

} // verus!
