//! Calls waiting for their reply, keyed by request id.
//!
//! Each outgoing call takes the next request id and parks its waiter here;
//! the reply carrying that id hands the waiter back exactly once.
use vstd::prelude::*;

verus! {

/// Calls waiting for their reply, and the id the next call will take.
pub struct PendingRequests<W> {
    next_req_id: u64,
    waiters: std::collections::HashMap<u64, W>,
}

impl<W> PendingRequests<W> {
    /// The id the next call takes.
    pub closed spec fn next_id(&self) -> u64 {
        self.next_req_id
    }

    /// The waiting calls as a map from request id to waiter.
    pub closed spec fn view(&self) -> Map<u64, W> {
        self.waiters@
    }

    /// Every parked id was issued before the next one (ids are taken in
    /// increasing order from 1 as long as the counter has not wrapped).
    pub open spec fn ids_below_next(&self) -> bool {
        &&& 1 <= self.next_id()
        &&& forall|k: u64| #[trigger] self.view().contains_key(k) ==> 1 <= k < self.next_id()
    }

    /// No waiting calls; the first id is 1.
    pub fn new() -> (p: Self)
        ensures
            p.ids_below_next(),
            p.next_id() == 1,
            p.view() == Map::<u64, W>::empty(),
    {
        PendingRequests { next_req_id: 1, waiters: std::collections::HashMap::new() }
    }

    /// Parks `waiter` under the next request id and returns that id; the
    /// counter then advances (wrapping at the end of `u64`). As long as the
    /// counter has not wrapped, the id is not parked already.
    pub fn issue(&mut self, waiter: W) -> (id: u64)
        ensures
            id == old(self).next_id(),
            final(self).next_id() == (if old(self).next_id() == u64::MAX { 0 } else { (old(self).next_id() + 1) as u64 }),
            final(self).view() == old(self).view().insert(id, waiter),
            old(self).ids_below_next() && old(self).next_id() < u64::MAX ==> (
                !old(self).view().contains_key(id) && final(self).ids_below_next()),
    {
        broadcast use vstd::std_specs::hash::group_hash_axioms;
        let id = self.next_req_id;
        self.next_req_id = id.wrapping_add(1);
        let _ = self.waiters.insert(id, waiter);
        id
    }

    /// Hands back the waiter parked under `req_id`, removing it; `None` when
    /// no call waits under that id (an unknown or already answered reply).
    pub fn complete(&mut self, req_id: u64) -> (r: Option<W>)
        ensures
            final(self).next_id() == old(self).next_id(),
            r is Some == old(self).view().contains_key(req_id),
            r matches Some(w) ==> w == old(self).view()[req_id],
            final(self).view() == old(self).view().remove(req_id),
            old(self).ids_below_next() ==> final(self).ids_below_next(),
    {
        broadcast use vstd::std_specs::hash::group_hash_axioms;
        self.waiters.remove(&req_id)
    }
}

/// The counter after a run of operations on the table, from `next`: an issue
/// (`true`) advances it by one, a completion (`false`) leaves it, as the
/// contracts of `issue` and `complete` say (while it does not wrap).
pub open spec fn counter_after(next: int, ops: Seq<bool>) -> int
    decreases ops.len(),
{
    if ops.len() == 0 {
        next
    } else if ops.last() {
        counter_after(next, ops.drop_last()) + 1
    } else {
        counter_after(next, ops.drop_last())
    }
}

/// The ids the issues of a run of operations take, in order: each issue takes
/// the counter as it stands before it.
pub open spec fn issued_ids(next: int, ops: Seq<bool>) -> Seq<int>
    decreases ops.len(),
{
    if ops.len() == 0 {
        Seq::empty()
    } else if ops.last() {
        issued_ids(next, ops.drop_last()).push(counter_after(next, ops.drop_last()))
    } else {
        issued_ids(next, ops.drop_last())
    }
}

/// Calls issued one after another on one table take ids `next`, `next + 1`,
/// ... in that order, whatever replies come between them: the `j`-th issue
/// takes `next + j`, so the ids strictly increase and no two calls share one
/// (from a new table, the ids are 1, 2, 3, ...).
pub proof fn lemma_ids_in_sequence(next: int, ops: Seq<bool>)
    ensures
        counter_after(next, ops) == next + issued_ids(next, ops).len(),
        forall|j: int| 0 <= j < issued_ids(next, ops).len() ==> #[trigger] issued_ids(next, ops)[j] == next + j,
        forall|i: int, j: int|
            0 <= i < j < issued_ids(next, ops).len() ==> issued_ids(next, ops)[i] < issued_ids(next, ops)[j],
    decreases ops.len(),
{
    if ops.len() > 0 {
        lemma_ids_in_sequence(next, ops.drop_last());
    }
}

/// A reply reaches its call exactly once: the waiter parked under an id is
/// the one handed back for that id, after which the id is no longer pending;
/// other pending calls are untouched.
pub proof fn lemma_reply_once<W>(view: Map<u64, W>, id: u64, waiter: W, other: u64)
    ensures
        view.insert(id, waiter).contains_key(id),
        view.insert(id, waiter)[id] == waiter,
        !view.insert(id, waiter).remove(id).contains_key(id),
        other != id ==> view.insert(id, waiter).remove(id).contains_key(other) == view.contains_key(other),
        other != id && view.contains_key(other) ==> view.insert(id, waiter).remove(id)[other] == view[other],
{
}

} // verus!
