//! The correlation table: the requests from outside that are waiting for the
//! content's answer, each under the id it was given.
//!
//! Ids count up from one and are never given twice, so an id in the table
//! names exactly one waiting request. A slot leaves the table when it is
//! taken to be fulfilled or when its request is abandoned; taking it a second
//! time finds nothing and changes nothing.

use vstd::prelude::*;
use std::collections::HashMap;

verus! {

broadcast use vstd::std_specs::hash::group_hash_axioms;

/// The first id that a table gives out.
pub const FIRST_ID: u64 = 1;

/// Waiting requests by correlation id. `S` is the completion slot through
/// which the waiting side is woken; the table only keeps it.
pub struct CorrelationTable<S> {
    next_id: u64,
    pending: HashMap<u64, S>,
}

impl<S> CorrelationTable<S> {
    /// The waiting requests: correlation id to completion slot.
    pub closed spec fn pending(&self) -> Map<u64, S> {
        self.pending@
    }

    /// The id that the next arrival gets.
    pub closed spec fn next_id(&self) -> u64 {
        self.next_id
    }

    /// Every waiting request has an id that was given out before: ids start
    /// at `FIRST_ID` and lie below the next one, and only finitely many wait.
    pub open spec fn wf(&self) -> bool {
        &&& self.next_id() >= FIRST_ID
        &&& self.pending().dom().finite()
        &&& forall|id: u64| #[trigger]
            self.pending().contains_key(id) ==> FIRST_ID <= id < self.next_id()
    }

    /// An empty table, whose first id is `FIRST_ID`.
    pub fn new() -> (t: Self)
        ensures
            t.wf(),
            t.pending() == Map::<u64, S>::empty(),
            t.next_id() == FIRST_ID,
    {
        CorrelationTable { next_id: FIRST_ID, pending: HashMap::new() }
    }

    /// Gives out the next id. Ids rise by one with every call; when the
    /// counter is exhausted no id is given and nothing changes.
    pub fn allocate(&mut self) -> (id: Option<u64>)
        requires
            old(self).wf(),
        ensures
            final(self).wf(),
            final(self).pending() == old(self).pending(),
            match id {
                Some(given) => {
                    &&& given == old(self).next_id()
                    &&& final(self).next_id() == given + 1
                    &&& !old(self).pending().contains_key(given)
                },
                None => old(self).next_id() == u64::MAX && final(self).next_id() == u64::MAX,
            },
    {
        if self.next_id == u64::MAX {
            None
        } else {
            let given = self.next_id;
            self.next_id = given + 1;
            Some(given)
        }
    }

    /// Enters a waiting request under an id that was given out and is not
    /// waiting already.
    pub fn insert(&mut self, id: u64, slot: S)
        requires
            old(self).wf(),
            FIRST_ID <= id < old(self).next_id(),
            !old(self).pending().contains_key(id),
        ensures
            final(self).wf(),
            final(self).next_id() == old(self).next_id(),
            final(self).pending() == old(self).pending().insert(id, slot),
    {
        self.pending.insert(id, slot);
    }

    /// Takes the slot of a waiting request out of the table, to fulfil it.
    /// For an id that is not waiting (never entered, or taken before) it
    /// returns `None` and leaves the table as it is.
    pub fn take(&mut self, id: u64) -> (slot: Option<S>)
        requires
            old(self).wf(),
        ensures
            final(self).wf(),
            final(self).next_id() == old(self).next_id(),
            final(self).pending() == old(self).pending().remove(id),
            slot == if old(self).pending().contains_key(id) {
                Some(old(self).pending()[id])
            } else {
                None
            },
    {
        let slot = self.pending.remove(&id);
        proof {
            if !old(self).pending().contains_key(id) {
                assert(old(self).pending().remove(id) =~= old(self).pending());
            }
        }
        slot
    }

    /// Removes a waiting request whose script could not be delivered. Its
    /// slot is dropped unfulfilled.
    pub fn abandon(&mut self, id: u64)
        requires
            old(self).wf(),
        ensures
            final(self).wf(),
            final(self).next_id() == old(self).next_id(),
            final(self).pending() == old(self).pending().remove(id),
    {
        let _ = self.take(id);
    }

    /// `true` when a request is waiting under `id`.
    pub fn is_waiting(&self, id: u64) -> (r: bool)
        requires
            self.wf(),
        ensures
            r == self.pending().contains_key(id),
    {
        self.pending.contains_key(&id)
    }

    /// The number of waiting requests.
    pub fn len(&self) -> (n: usize)
        requires
            self.wf(),
        ensures
            n == self.pending().len(),
    {
        self.pending.len()
    }
}

/// Taking a slot twice: the second time finds nothing and leaves the table as
/// the first left it.
pub proof fn lemma_second_take_finds_nothing<S>(pending: Map<u64, S>, id: u64)
    ensures
        !pending.remove(id).contains_key(id),
        pending.remove(id).remove(id) == pending.remove(id),
{
    assert(pending.remove(id).remove(id) =~= pending.remove(id));
}

/// No waiting request has an id that is still to be given out: whatever id
/// the table gives next, or later, is new.
pub proof fn lemma_given_id_is_fresh<S>(table: CorrelationTable<S>, id: u64)
    requires
        table.wf(),
        id >= table.next_id(),
    ensures
        !table.pending().contains_key(id),
{
}

} // verus!
