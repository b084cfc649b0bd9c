use vstd::prelude::*;

verus! {

/// Registering a member into a task queue that already holds as many
/// members as its fixed capacity is a capacity violation, reported to the
/// caller and never silently dropped.
#[derive(PartialEq, Eq, Structural, Clone, Copy, Debug)]
pub struct CapacityError;

/// A fixed-capacity, ordered collection of task slots.
///
/// The queue is the substrate of the join and select combinators.  It
/// tracks, per slot, whether the task registered there has completed, and
/// it decides which slot may be polled next: slots are visited in
/// ascending registration order and a completed slot is never offered for
/// polling again.  The capacity is fixed at construction; registration
/// beyond it is rejected.
pub struct TaskQueue {
    capacity: usize,
    done: Vec<bool>,
}

impl TaskQueue {
    /// Completion flags of the registered slots, in registration order.
    pub closed spec fn flags(self) -> Seq<bool> {
        self.done@
    }

    /// Number of registered slots.
    pub open spec fn len(self) -> nat {
        self.flags().len()
    }

    /// The fixed capacity chosen at construction.
    pub closed spec fn cap(self) -> nat {
        self.capacity as nat
    }

    /// No more slots are ever registered than the capacity allows.
    pub open spec fn wf(self) -> bool {
        self.len() <= self.cap()
    }

    /// Every registered slot has completed.
    pub open spec fn spec_all_done(self) -> bool {
        forall|j: int| 0 <= j < self.len() ==> self.flags()[j]
    }

    /// Make an empty queue of the given fixed capacity.
    pub fn new(capacity: usize) -> (q: TaskQueue)
        ensures
            q.wf(),
            q.cap() == capacity,
            q.len() == 0,
    {
        TaskQueue { capacity, done: Vec::new() }
    }

    /// How many slots are registered.
    pub fn count(&self) -> (r: usize)
        ensures
            r == self.len(),
    {
        self.done.len()
    }

    /// The fixed capacity.
    pub fn capacity(&self) -> (r: usize)
        ensures
            r == self.cap(),
    {
        self.capacity
    }

    /// Register one task at the next free slot and hand back its index.
    /// Registration succeeds exactly while the queue is below its fixed
    /// capacity; at capacity the request is rejected and the queue is left
    /// unchanged.
    pub fn register(&mut self) -> (r: Result<usize, CapacityError>)
        requires
            old(self).wf(),
        ensures
            final(self).wf(),
            final(self).cap() == old(self).cap(),
            r is Ok <==> old(self).len() < old(self).cap(),
            r is Ok ==> r->Ok_0 == old(self).len()
                && final(self).flags() == old(self).flags().push(false),
            r is Err ==> *final(self) == *old(self),
    {
        if self.done.len() < self.capacity {
            let index = self.done.len();
            self.done.push(false);
            Ok(index)
        } else {
            Err(CapacityError)
        }
    }

    /// The lowest not-yet-completed slot at index `from` or above: the next
    /// slot a polling pass may poll.  A completed slot is never returned,
    /// so no task is ever polled again after it completed.
    pub fn next_pending(&self, from: usize) -> (r: Option<usize>)
        ensures
            r is Some ==> from <= r->Some_0 < self.len()
                && !self.flags()[r->Some_0 as int]
                && (forall|j: int| from <= j < r->Some_0 ==> self.flags()[j]),
            r is None ==> forall|j: int| from <= j < self.len() ==> self.flags()[j],
    {
        let mut i: usize = from;
        while i < self.done.len()
            invariant
                from <= i,
                forall|j: int| from <= j < i ==> self.flags()[j],
            decreases self.done.len() - i,
        {
            if !self.done[i] {
                return Some(i);
            }
            i = i + 1;
        }
        None
    }

    /// Mark the task at slot `index` as completed.  Only a registered,
    /// not-yet-completed slot may complete, and it does so exactly once.
    pub fn mark_done(&mut self, index: usize)
        requires
            index < old(self).len(),
            !old(self).flags()[index as int],
        ensures
            final(self).flags() == old(self).flags().update(index as int, true),
            final(self).cap() == old(self).cap(),
    {
        self.done.set(index, true);
    }

    /// Whether every registered slot has completed: the join combinator's
    /// completion condition.
    pub fn all_done(&self) -> (r: bool)
        ensures
            r == self.spec_all_done(),
    {
        let mut i: usize = 0;
        while i < self.done.len()
            invariant
                i <= self.flags().len(),
                forall|j: int| 0 <= j < i ==> self.flags()[j],
            decreases self.done.len() - i,
        {
            if !self.done[i] {
                return false;
            }
            i = i + 1;
        }
        true
    }
}

} // verus!
