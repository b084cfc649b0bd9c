use vstd::prelude::*;

verus! {

/// The outcome of polling a future once: either the final value or
/// "not yet".
pub enum Poll<O> {
    /// The future finished and produced its output.
    Ready(O),
    /// The future is not finished; a waker will announce when a re-poll
    /// may be worthwhile.
    Pending,
}

impl<O> Poll<O> {
    /// Whether this outcome carries the final value.
    pub open spec fn is_ready(self) -> bool {
        self is Ready
    }

    /// The value carried by a `Ready` outcome.
    pub open spec fn value(self) -> O
        recommends
            self.is_ready(),
    {
        self->Ready_0
    }
}

} // verus!
