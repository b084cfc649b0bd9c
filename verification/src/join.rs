use vstd::prelude::*;
use crate::poll::Poll;
use crate::task_queue::CapacityError;
use crate::task_queue::TaskQueue;

verus! {

/// The state of one member's output slot after one polling pass: a slot
/// written earlier keeps its value, a pending slot is written exactly when
/// this pass's poll reported `Ready`, and stays pending otherwise.
pub open spec fn pass_slot<O>(slot: Option<O>, outcome: Poll<O>) -> Option<O> {
    if slot is Some {
        slot
    } else if outcome is Ready {
        Some(outcome.value())
    } else {
        None
    }
}

/// The wait-for-all combinator.
///
/// Up to the queue's fixed capacity of member tasks are registered; each
/// polling pass polls every not-yet-complete member once and records the
/// outcomes.  The combinator is complete only when every member's output
/// slot has been written, and only then can the outputs be read — each
/// slot exactly once, in registration order, whatever order the members
/// completed in.  No partial result is ever observable.
pub struct Join<O> {
    queue: TaskQueue,
    outputs: Vec<Option<O>>,
}

impl<O> Join<O> {
    /// Per-member output slots in registration order; `None` marks a
    /// member that is still pending.
    pub closed spec fn slots(self) -> Seq<Option<O>> {
        self.outputs@
    }

    /// The fixed capacity of the underlying queue.
    pub closed spec fn cap(self) -> nat {
        self.queue.cap()
    }

    /// Number of registered members.
    pub open spec fn len(self) -> nat {
        self.slots().len()
    }

    /// The underlying queue's completion flags mirror the output slots:
    /// a slot is flagged done exactly when its output has been written.
    pub closed spec fn wf(self) -> bool {
        &&& self.queue.wf()
        &&& self.queue.flags().len() == self.outputs@.len()
        &&& forall|i: int| 0 <= i < self.outputs@.len() ==>
                (#[trigger] self.queue.flags()[i] <==> self.outputs@[i] is Some)
    }

    /// Every member's output slot has been written.
    pub open spec fn is_complete(self) -> bool {
        forall|i: int| 0 <= i < self.len() ==> #[trigger] self.slots()[i] is Some
    }

    /// Inside the module, restate the slot/flag correspondence with the
    /// slot side as the trigger, so facts about the queue's flags carry
    /// over to facts about the output slots.
    proof fn lemma_flags_match(self)
        requires
            self.wf(),
        ensures
            forall|i: int| 0 <= i < self.len() ==>
                (self.queue.flags()[i] <==> #[trigger] self.slots()[i] is Some),
    {
        assert forall|i: int| 0 <= i < self.len() implies
            (self.queue.flags()[i] <==> #[trigger] self.slots()[i] is Some) by {
            assert(self.queue.flags()[i] <==> self.outputs@[i] is Some);
        }
    }

    /// An empty join over a queue of the given fixed capacity.
    pub fn new(capacity: usize) -> (j: Join<O>)
        ensures
            j.wf(),
            j.cap() == capacity,
            j.len() == 0,
    {
        Join { queue: TaskQueue::new(capacity), outputs: Vec::new() }
    }

    /// Register one member task and hand back its position, which is also
    /// the position of its output.  Succeeds exactly while the join is
    /// below the queue's fixed capacity; at capacity the member is
    /// rejected and nothing changes.
    pub fn register(&mut self) -> (r: Result<usize, CapacityError>)
        requires
            old(self).wf(),
        ensures
            final(self).wf(),
            final(self).cap() == old(self).cap(),
            r is Ok <==> old(self).len() < old(self).cap(),
            r is Ok ==> r->Ok_0 == old(self).len()
                && final(self).slots() == old(self).slots().push(None::<O>),
            r is Err ==> *final(self) == *old(self),
    {
        match self.queue.register() {
            Ok(index) => {
                self.outputs.push(None);
                Ok(index)
            }
            Err(e) => Err(e),
        }
    }

    /// How many members are registered.
    pub fn count(&self) -> (r: usize)
        ensures
            r == self.len(),
    {
        self.outputs.len()
    }

    /// The fixed capacity.
    pub fn capacity(&self) -> (r: usize)
        ensures
            r == self.cap(),
    {
        self.queue.capacity()
    }

    /// The lowest still-pending member at position `from` or above: the
    /// next member a polling pass may poll.  A member whose output is
    /// already written is never offered again.
    pub fn next_pending(&self, from: usize) -> (r: Option<usize>)
        requires
            self.wf(),
        ensures
            r is Some ==> from <= r->Some_0 < self.len()
                && self.slots()[r->Some_0 as int] is None
                && (forall|j: int| from <= j < r->Some_0 ==> self.slots()[j] is Some),
            r is None ==> forall|j: int| from <= j < self.len() ==> self.slots()[j] is Some,
    {
        proof {
            self.lemma_flags_match();
        }
        self.queue.next_pending(from)
    }

    /// Record that the member at `index` reported `Ready` with `value`:
    /// its output slot is written, exactly once, and every other slot is
    /// untouched.
    pub fn record_ready(&mut self, index: usize, value: O)
        requires
            old(self).wf(),
            index < old(self).len(),
            old(self).slots()[index as int] is None,
        ensures
            final(self).wf(),
            final(self).cap() == old(self).cap(),
            final(self).slots() == old(self).slots().update(index as int, Some(value)),
    {
        self.queue.mark_done(index);
        self.outputs.set(index, Some(value));
    }

    /// Whether the join is complete: its result is observable exactly
    /// from that moment on.
    pub fn all_ready(&self) -> (r: bool)
        requires
            self.wf(),
        ensures
            r == self.is_complete(),
    {
        proof {
            self.lemma_flags_match();
        }
        self.queue.all_done()
    }

    /// One full polling pass, given the outcome of polling each member
    /// that was still pending (the entry at an already-complete member is
    /// ignored — such a member is not polled at all).  Afterwards each
    /// slot holds `pass_slot` of its old state and its outcome, and the
    /// pass reports whether the join is now complete.
    ///
    /// In particular, when every member is registered and still pending
    /// and every poll reports `Ready` — the all-immediately-ready case —
    /// a single pass completes the join and the outputs are exactly the
    /// reported values, in registration order.
    pub fn poll_pass(&mut self, outcomes: Vec<Poll<O>>) -> (complete: bool)
        requires
            old(self).wf(),
            outcomes@.len() == old(self).len(),
        ensures
            final(self).wf(),
            final(self).cap() == old(self).cap(),
            final(self).len() == old(self).len(),
            forall|i: int| 0 <= i < old(self).len() ==>
                final(self).slots()[i] == pass_slot(old(self).slots()[i], #[trigger] outcomes@[i]),
            complete == final(self).is_complete(),
            (forall|i: int| 0 <= i < old(self).len() ==>
                old(self).slots()[i] is None && #[trigger] outcomes@[i] is Ready)
                ==> complete
                    && (forall|i: int| 0 <= i < old(self).len() ==>
                        final(self).slots()[i] == Some((#[trigger] outcomes@[i]).value())),
    {
        let ghost orig = *old(self);
        let ghost all = outcomes@;
        let mut outcomes = outcomes;
        let mut i: usize = self.outputs.len();
        while i > 0
            invariant
                self.wf(),
                i <= all.len(),
                self.len() == all.len(),
                self.cap() == orig.cap(),
                outcomes@ == all.take(i as int),
                forall|j: int| 0 <= j < i ==> self.slots()[j] == orig.slots()[j],
                forall|j: int| i <= j < all.len() ==>
                    self.slots()[j] == pass_slot(orig.slots()[j], #[trigger] all[j]),
            decreases i,
        {
            i = i - 1;
            let outcome = outcomes.pop().unwrap();
            proof {
                assert(outcomes@ =~= all.take(i as int));
                assert(outcome == all[i as int]);
            }
            if self.outputs[i].is_none() {
                match outcome {
                    Poll::Ready(v) => self.record_ready(i, v),
                    Poll::Pending => {}
                }
            }
        }
        proof {
            if forall|i: int| 0 <= i < orig.len() ==>
                orig.slots()[i] is None && #[trigger] all[i] is Ready {
                assert forall|i: int| 0 <= i < self.len() implies
                    #[trigger] self.slots()[i] is Some
                        && self.slots()[i] == Some(all[i].value()) by {
                    assert(orig.slots()[i] is None && all[i] is Ready);
                    assert(self.slots()[i] == pass_slot(orig.slots()[i], all[i]));
                }
            }
        }
        self.all_ready()
    }

    /// Consume a complete join and hand out every member's output, in
    /// registration order, each slot read exactly once.
    pub fn into_outputs(self) -> (r: Vec<O>)
        requires
            self.wf(),
            self.is_complete(),
        ensures
            r@.len() == self.len(),
            forall|i: int| 0 <= i < self.len() ==> Some(#[trigger] r@[i]) == self.slots()[i],
    {
        let ghost slots = self.outputs@;
        let mut outputs = self.outputs;
        let mut r: Vec<O> = Vec::new();
        while outputs.len() > 0
            invariant
                r@.len() + outputs@.len() == slots.len(),
                outputs@ == slots.subrange(r@.len() as int, slots.len() as int),
                forall|i: int| 0 <= i < slots.len() ==> #[trigger] slots[i] is Some,
                forall|i: int| 0 <= i < r@.len() ==> Some(#[trigger] r@[i]) == slots[i],
            decreases outputs.len(),
        {
            proof {
                assert(outputs@[0] == slots[r@.len() as int]);
            }
            let o = outputs.remove(0);
            r.push(o.unwrap());
            proof {
                assert(outputs@ =~= slots.subrange(r@.len() as int, slots.len() as int));
            }
        }
        r
    }
}

} // verus!
