use vstd::prelude::*;
use crate::poll::Poll;

verus! {

/// The decision core of the blocking-thread bridge.
///
/// The bridge runs a blocking function on a worker thread and makes its
/// result awaitable.  Worker and awaiting future share one cell of this
/// shape: the worker stores the result, marks the cell done and learns
/// which waker — the latest one recorded, earlier ones having been
/// overwritten — it must fire, exactly once, after the result is stored.
/// The future's poll either records its waker and reports `Pending`, or,
/// once the cell is done, takes the stored result; the cell then refuses
/// any further poll, so `Ready` is yielded exactly once and no partial or
/// stale result is ever observed.  The lock around the cell, the worker
/// pool and the waker invocation itself are outside work performed by the
/// caller; every decision over the cell's content is taken here.
pub struct BridgeCell<R, W> {
    done: bool,
    result: Option<R>,
    waker: Option<W>,
}

impl<R, W> BridgeCell<R, W> {
    /// Whether the worker has finished and stored its result.
    pub closed spec fn is_done(self) -> bool {
        self.done
    }

    /// The stored result, present from the worker finishing until the
    /// single `Ready` poll takes it.
    pub closed spec fn stored(self) -> Option<R> {
        self.result
    }

    /// The waker recorded by the latest `Pending` poll, if any.
    pub closed spec fn pending_waker(self) -> Option<W> {
        self.waker
    }

    /// A result is stored exactly while the cell is done.  The single
    /// `Ready` poll breaks this on purpose: the cell is spent and no
    /// further poll is admitted.
    pub open spec fn wf(self) -> bool {
        self.is_done() <==> self.stored() is Some
    }

    /// A fresh cell: no result, no waker, not done.
    pub fn new() -> (c: BridgeCell<R, W>)
        ensures
            c.wf(),
            !c.is_done(),
            c.pending_waker() is None,
    {
        BridgeCell { done: false, result: None, waker: None }
    }

    /// The awaiting future's poll.  Before the worker finishes it records
    /// `waker` — overwriting any earlier one, since only the latest needs
    /// notifying — and reports `Pending`; afterwards it takes the stored
    /// result, exactly once.
    pub fn poll(&mut self, waker: W) -> (r: Poll<R>)
        requires
            old(self).wf(),
        ensures
            !old(self).is_done() ==> r is Pending
                && !final(self).is_done()
                && final(self).stored() is None
                && final(self).pending_waker() == Some(waker),
            old(self).is_done() ==> r == Poll::Ready(old(self).stored()->Some_0)
                && final(self).stored() is None
                && final(self).pending_waker() == old(self).pending_waker(),
    {
        if !self.done {
            self.waker = Some(waker);
            Poll::Pending
        } else {
            Poll::Ready(self.result.take().unwrap())
        }
    }

    /// The worker's single completion step: store the result, mark the
    /// cell done and hand back the waker to fire — the latest recorded
    /// one, or none when no poll has registered any yet.
    pub fn complete(&mut self, value: R) -> (w: Option<W>)
        requires
            old(self).wf(),
            !old(self).is_done(),
        ensures
            final(self).wf(),
            final(self).is_done(),
            final(self).stored() == Some(value),
            w == old(self).pending_waker(),
            final(self).pending_waker() is None,
    {
        self.result = Some(value);
        self.done = true;
        self.waker.take()
    }
}

} // verus!
