use vstd::prelude::*;
use crate::poll::Poll;

verus! {

/// What the run loop does next, decided after each poll of the top-level
/// task.
pub enum Control<O> {
    /// The top-level task finished: stop and hand its output to the
    /// caller.
    Finish(O),
    /// Not yet: park on the interrupt until some waker fires, then poll
    /// again.
    Park,
}

impl<O> Control<O> {
    /// Whether the loop is over.
    pub open spec fn is_finish(self) -> bool {
        self is Finish
    }

    /// The output carried by a `Finish` decision.
    pub open spec fn output(self) -> O
        recommends
            self.is_finish(),
    {
        self->Finish_0
    }
}

/// The run loop's decision after one poll of the top-level task: stop with
/// the output exactly when the poll reported `Ready`, otherwise park and
/// re-poll after the next wake.  The loop built on this never returns a
/// value of its own making and never abandons a finished task.
pub fn run_step<O>(outcome: Poll<O>) -> (c: Control<O>)
    ensures
        c.is_finish() == outcome.is_ready(),
        outcome is Ready ==> c == Control::Finish(outcome.value()),
{
    match outcome {
        Poll::Ready(v) => Control::Finish(v),
        Poll::Pending => Control::Park,
    }
}

/// The run loop over a finite trace of poll outcomes: poll, park on
/// `Pending`, poll again — and stop at the first `Ready`.
///
/// The result pins the loop down: it returns the value of the first
/// `Ready` outcome, after exactly as many polls as there were `Pending`
/// outcomes before it and none after; and as long as every poll reports
/// `Pending` it returns nothing — the loop is still parked when the trace
/// runs out.  It never makes up a value and never abandons a `Ready`.
#[verifier::loop_isolation(false)]
pub fn run_trace<O>(outcomes: Vec<Poll<O>>) -> (r: Option<(usize, O)>)
    ensures
        r is Some ==> ({
            let (polls, value) = r->Some_0;
            &&& polls < outcomes@.len()
            &&& outcomes@[polls as int] is Ready
            &&& value == outcomes@[polls as int].value()
            &&& forall|j: int| 0 <= j < polls ==> outcomes@[j] is Pending
        }),
        r is None ==> forall|j: int| 0 <= j < outcomes@.len() ==> outcomes@[j] is Pending,
{
    let ghost trace = outcomes@;
    let total: usize = outcomes.len();
    let mut rest = outcomes;
    let mut polls: usize = 0;
    while rest.len() > 0
        invariant
            trace.len() == total,
            polls + rest@.len() == trace.len(),
            rest@ == trace.subrange(polls as int, trace.len() as int),
            forall|j: int| 0 <= j < polls ==> trace[j] is Pending,
        decreases rest.len(),
    {
        proof {
            assert(rest@[0] == trace[polls as int]);
        }
        let outcome = rest.remove(0);
        match run_step(outcome) {
            Control::Finish(v) => {
                return Some((polls, v));
            }
            Control::Park => {
                polls = polls + 1;
                proof {
                    assert(rest@ =~= trace.subrange(polls as int, trace.len() as int));
                }
            }
        }
    }
    None
}

} // verus!
