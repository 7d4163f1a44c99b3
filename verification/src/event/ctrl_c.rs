//! Ctrl+C on Motor OS arrives from the runtime, not as a byte on stdin; a
//! listener counts each one so that the event source can report each as a key
//! event of its own.

use vstd::prelude::*;

verus! {

/// How many Ctrl+C events have arrived and not yet been reported.
#[derive(Debug)]
pub struct PendingEvents {
    count: usize,
}

impl View for PendingEvents {
    type V = nat;

    closed spec fn view(&self) -> nat {
        self.count as nat
    }
}

/// What taking one event from `count` pending events reports, and how many
/// are pending afterwards.
pub open spec fn after_take(count: nat) -> (bool, nat) {
    if count > 0 {
        (true, (count - 1) as nat)
    } else {
        (false, 0)
    }
}

/// What `takes` consecutive takes from `count` pending events report: each
/// one whether there was an event to take.
pub open spec fn take_results(count: nat, takes: nat) -> Seq<bool>
    decreases takes,
{
    if takes == 0 {
        Seq::empty()
    } else {
        seq![after_take(count).0] + take_results(after_take(count).1, (takes - 1) as nat)
    }
}

impl PendingEvents {
    /// Nothing pending.
    pub fn new() -> (pending: Self)
        ensures
            pending@ == 0,
    {
        PendingEvents { count: 0 }
    }

    /// How many events are pending.
    pub fn count(&self) -> (count: usize)
        ensures
            count == self@,
    {
        self.count
    }

    /// Counts one more event. The count is exhausted at `usize::MAX`, which
    /// the caller must check for (see [`PendingEvents::count`]).
    pub fn add(&mut self)
        requires
            old(self)@ < usize::MAX,
        ensures
            final(self)@ == old(self)@ + 1,
    {
        self.count = self.count + 1;
    }

    /// Takes one pending event, if there is one, and says whether there was.
    pub fn take(&mut self) -> (taken: bool)
        ensures
            (taken, final(self)@) == after_take(old(self)@),
    {
        if self.count == 0 {
            false
        } else {
            self.count = self.count - 1;
            true
        }
    }
}

/// Pending events are counted individually: from `count` pending events,
/// exactly the first `count` takes succeed and every one after them fails.
pub proof fn lemma_pending_events_are_counted_individually(count: nat, takes: nat)
    ensures
        take_results(count, takes).len() == takes,
        forall|i: int| 0 <= i < takes ==> take_results(count, takes)[i] == (i < count),
    decreases takes,
{
    if takes > 0 {
        let next = after_take(count).1;
        lemma_pending_events_are_counted_individually(next, (takes - 1) as nat);
        assert forall|i: int| 0 <= i < takes implies take_results(count, takes)[i] == (i < count) by {
            if i > 0 {
                assert(take_results(count, takes)[i] == take_results(next, (takes - 1) as nat)[i - 1]);
            }
        }
    }
}

} // verus!
