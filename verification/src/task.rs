use vstd::prelude::*;
use crate::poll::Poll;

verus! {

/// The unit of scheduling.  A task binds one future to an output slot that
/// stays empty until the future first reports `Ready`; from that moment the
/// slot is written exactly once and the task must never be polled again.
///
/// The future itself is caller-owned and is polled outside the library; the
/// task records each outcome and enforces, through its contracts, that a
/// completed task is not polled again.
pub struct Task<O> {
    done: bool,
    output: Option<O>,
}

impl<O> Task<O> {
    /// The output slot is written exactly when the task has completed.
    pub closed spec fn wf(self) -> bool {
        self.done <==> self.output is Some
    }

    /// Whether the future has reported `Ready`.
    pub closed spec fn is_done(self) -> bool {
        self.done
    }

    /// The content of the output slot.
    pub closed spec fn stored(self) -> Option<O> {
        self.output
    }

    /// Whether the task has completed.
    pub fn done(&self) -> (r: bool)
        ensures
            r == self.is_done(),
    {
        self.done
    }

    /// Record the outcome of one poll of the underlying future.  A task may
    /// only be polled while it is not yet done: a `Ready` outcome completes
    /// it and writes the output slot once; a `Pending` outcome leaves it
    /// untouched.
    pub fn record(&mut self, outcome: Poll<O>) -> (completed: bool)
        requires
            old(self).wf(),
            !old(self).is_done(),
        ensures
            final(self).wf(),
            completed == outcome.is_ready(),
            outcome is Ready ==> final(self).is_done()
                && final(self).stored() == Some(outcome.value()),
            outcome is Pending ==> *final(self) == *old(self),
    {
        match outcome {
            Poll::Ready(v) => {
                self.output = Some(v);
                self.done = true;
                true
            }
            Poll::Pending => false,
        }
    }

    /// Move the output out of a completed task.
    pub fn take_output(self) -> (r: O)
        requires
            self.wf(),
            self.is_done(),
        ensures
            self.stored() == Some(r),
    {
        self.output.unwrap()
    }
}

/// Make a fresh task for one future: not yet done, output slot empty.
pub fn new_task<O>() -> (t: Task<O>)
    ensures
        t.wf(),
        !t.is_done(),
        t.stored() is None,
{
    Task { done: false, output: None }
}

} // verus!
