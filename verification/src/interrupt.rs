use vstd::prelude::*;

verus! {

/// The sleep/wake primitive behind the run loop's only blocking point.
///
/// The state is either idle (no pending wake) or woken (at least one wake
/// arrived since the state was last observed idle).  `interrupt` moves the
/// state to woken; one observation step of a wait consumes a pending wake.
/// The thread-parking backend guards exactly this state with a mutex and
/// parks on a condition variable between observations — the blocking
/// itself is outside work performed by the caller, who keeps re-observing
/// until a wake is consumed.  The busy/null backend degenerates to a wait
/// that returns at once, for callers that supply their own blocking.
pub struct Interrupt {
    woken: bool,
}

impl Interrupt {
    /// Whether at least one wake is pending.
    pub closed spec fn is_woken(self) -> bool {
        self.woken
    }

    /// How `interrupt` changes the state: afterwards a wake is pending,
    /// however many wakes were pending before.
    pub open spec fn interrupt_rel(pre: Interrupt, post: Interrupt) -> bool {
        post.is_woken()
    }

    /// How one observation step of a wait changes the state: it reports
    /// whether a wake was pending and consumes it.
    pub open spec fn check_rel(pre: Interrupt, post: Interrupt, woke: bool) -> bool {
        woke == pre.is_woken() && !post.is_woken()
    }

    /// A fresh interrupt: idle, no wake pending.
    pub fn new() -> (r: Interrupt)
        ensures
            !r.is_woken(),
    {
        Interrupt { woken: false }
    }

    /// Announce that a re-poll may be worthwhile.  Safe to call any number
    /// of times; calls coalesce into one pending wake.
    pub fn interrupt(&mut self)
        ensures
            Interrupt::interrupt_rel(*old(self), *final(self)),
    {
        self.woken = true;
    }

    /// One observation step of a wait: consume a pending wake if there is
    /// one.  A result of `true` ends the wait; on `false` the caller may
    /// block and must observe again after being unparked.
    pub fn check_wake(&mut self) -> (woke: bool)
        ensures
            Interrupt::check_rel(*old(self), *final(self), woke),
    {
        let w = self.woken;
        self.woken = false;
        w
    }
}

/// A wake is never lost: a wait whose observation step runs after an
/// `interrupt` — however the two were interleaved before that point —
/// returns at once instead of blocking.
pub proof fn lemma_wake_not_lost(s0: Interrupt, s1: Interrupt, s2: Interrupt, woke: bool)
    requires
        Interrupt::interrupt_rel(s0, s1),
        Interrupt::check_rel(s1, s2, woke),
    ensures
        woke,
{
}

/// No wake comes out of nothing: observing an idle interrupt — fresh, or
/// one whose only pending wake was already consumed — reports no wake, so
/// a wait never completes early on the strength of wakes meant for an
/// earlier wait or for a different interrupt.
pub proof fn lemma_no_spurious_wake(s0: Interrupt, s1: Interrupt, woke: bool)
    requires
        !s0.is_woken(),
        Interrupt::check_rel(s0, s1, woke),
    ensures
        !woke,
{
}

} // verus!
