use vstd::prelude::*;
use crate::poll::Poll;
use crate::task_queue::CapacityError;
use crate::task_queue::TaskQueue;

verus! {

/// The wait-for-first combinator.
///
/// Up to the queue's fixed capacity of member tasks are registered.  Each
/// polling pass visits the members in ascending registration order and
/// stops at the first one that reports `Ready`: that member's position and
/// output become the result, later members of the same pass are not
/// polled, and once a winner exists no member is ever offered for polling
/// again — the losers are abandoned, not cancelled.  When several members
/// become ready within one pass, the lowest position observed during the
/// ascending scan wins.
pub struct Select<O> {
    queue: TaskQueue,
    winner: Option<(usize, O)>,
}

impl<O> Select<O> {
    /// The winning member's position and output, once one exists.
    pub closed spec fn winner_spec(self) -> Option<(usize, O)> {
        self.winner
    }

    /// The fixed capacity of the underlying queue.
    pub closed spec fn cap(self) -> nat {
        self.queue.cap()
    }

    /// Number of registered members.
    pub closed spec fn len(self) -> nat {
        self.queue.flags().len()
    }

    /// Whether a winner exists: the select's result is observable exactly
    /// from that moment on.
    pub open spec fn is_finished(self) -> bool {
        self.winner_spec() is Some
    }

    /// The underlying queue flags exactly the winner: while no winner
    /// exists every member is still pending, and afterwards the winner's
    /// slot alone is complete.
    pub closed spec fn wf(self) -> bool {
        &&& self.queue.wf()
        &&& match self.winner {
            Some((w, _)) => w < self.queue.flags().len()
                && forall|j: int| 0 <= j < self.queue.flags().len() ==>
                    (#[trigger] self.queue.flags()[j] <==> j == w),
            None => forall|j: int| 0 <= j < self.queue.flags().len() ==>
                !(#[trigger] self.queue.flags()[j]),
        }
    }

    /// An empty select over a queue of the given fixed capacity.
    pub fn new(capacity: usize) -> (s: Select<O>)
        ensures
            s.wf(),
            s.cap() == capacity,
            s.len() == 0,
            !s.is_finished(),
    {
        Select { queue: TaskQueue::new(capacity), winner: None }
    }

    /// Register one member task and hand back its position.  Succeeds
    /// exactly while the select is below the queue's fixed capacity; at
    /// capacity the member is rejected and nothing changes.
    pub fn register(&mut self) -> (r: Result<usize, CapacityError>)
        requires
            old(self).wf(),
        ensures
            final(self).wf(),
            final(self).cap() == old(self).cap(),
            final(self).winner_spec() == old(self).winner_spec(),
            r is Ok <==> old(self).len() < old(self).cap(),
            r is Ok ==> r->Ok_0 == old(self).len()
                && final(self).len() == old(self).len() + 1,
            r is Err ==> *final(self) == *old(self),
    {
        self.queue.register()
    }

    /// How many members are registered.
    pub fn count(&self) -> (r: usize)
        ensures
            r == self.len(),
    {
        self.queue.count()
    }

    /// The fixed capacity.
    pub fn capacity(&self) -> (r: usize)
        ensures
            r == self.cap(),
    {
        self.queue.capacity()
    }

    /// The next member a polling pass may poll: the one at position
    /// `from`, every member below it having already reported `Pending`
    /// this pass.  Once a winner exists there is nothing to poll — no
    /// member, winner or loser, is ever polled again.
    pub fn next_pending(&self, from: usize) -> (r: Option<usize>)
        requires
            self.wf(),
        ensures
            self.is_finished() ==> r is None,
            !self.is_finished() && from < self.len() ==> r == Some(from),
            !self.is_finished() && from >= self.len() ==> r is None,
    {
        if self.winner.is_some() {
            None
        } else {
            let r = self.queue.next_pending(from);
            proof {
                if from < self.len() {
                    assert(!self.queue.flags()[from as int]);
                }
            }
            r
        }
    }

    /// Record the outcome of polling the member at `index`.  A `Ready`
    /// outcome makes that member the winner and ends the scan — the
    /// short-circuit; a `Pending` outcome changes nothing and the scan
    /// moves on.
    pub fn record(&mut self, index: usize, outcome: Poll<O>) -> (won: bool)
        requires
            old(self).wf(),
            !old(self).is_finished(),
            index < old(self).len(),
        ensures
            final(self).wf(),
            final(self).cap() == old(self).cap(),
            final(self).len() == old(self).len(),
            won == outcome.is_ready(),
            outcome is Pending ==> *final(self) == *old(self),
            outcome is Ready ==>
                final(self).winner_spec() == Some((index, outcome.value())),
    {
        match outcome {
            Poll::Ready(v) => {
                self.queue.mark_done(index);
                self.winner = Some((index, v));
                true
            }
            Poll::Pending => false,
        }
    }

    /// One polling pass, given the outcome each member would report if
    /// polled this pass.  The scan runs in ascending order and stops at
    /// the first `Ready`: that member — the lowest ready position, the
    /// tie-break — becomes the winner, and the entries past it are never
    /// consulted, exactly as the members past it are never polled.  When
    /// every member reports `Pending` the pass changes nothing.
    #[verifier::loop_isolation(false)]
    pub fn poll_pass(&mut self, outcomes: Vec<Poll<O>>) -> (r: Option<usize>)
        requires
            old(self).wf(),
            !old(self).is_finished(),
            outcomes@.len() == old(self).len(),
        ensures
            final(self).wf(),
            final(self).cap() == old(self).cap(),
            final(self).len() == old(self).len(),
            r is Some ==> ({
                let k = r->Some_0;
                &&& k < outcomes@.len()
                &&& outcomes@[k as int] is Ready
                &&& (forall|j: int| 0 <= j < k ==> outcomes@[j] is Pending)
                &&& final(self).winner_spec() == Some((k, outcomes@[k as int].value()))
            }),
            r is None ==> (forall|j: int| 0 <= j < outcomes@.len() ==> outcomes@[j] is Pending)
                && *final(self) == *old(self),
    {
        let ghost trace = outcomes@;
        let mut rest = outcomes;
        let total: usize = rest.len();
        let mut i: usize = 0;
        while rest.len() > 0
            invariant
                *self == *old(self),
                trace.len() == total,
                i + rest@.len() == trace.len(),
                rest@ == trace.subrange(i as int, trace.len() as int),
                forall|j: int| 0 <= j < i ==> trace[j] is Pending,
            decreases rest.len(),
        {
            proof {
                assert(rest@[0] == trace[i as int]);
            }
            let outcome = rest.remove(0);
            if self.record(i, outcome) {
                return Some(i);
            }
            i = i + 1;
            proof {
                assert(rest@ =~= trace.subrange(i as int, trace.len() as int));
            }
        }
        None
    }

    /// Whether a winner exists.
    pub fn finished(&self) -> (r: bool)
        ensures
            r == self.is_finished(),
    {
        self.winner.is_some()
    }

    /// Consume a finished select and hand out the winning member's
    /// position together with its output.
    pub fn into_result(self) -> (r: (usize, O))
        requires
            self.wf(),
            self.is_finished(),
        ensures
            self.winner_spec() == Some(r),
            r.0 < self.len(),
    {
        self.winner.unwrap()
    }
}

} // verus!
