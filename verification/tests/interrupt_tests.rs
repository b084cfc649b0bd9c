use pasts::interrupt::Interrupt;

#[test]
fn wake_before_wait_is_not_lost() {
    let mut intr = Interrupt::new();
    intr.interrupt();
    assert!(intr.check_wake(), "a wait observing a pending wake returns at once");
    assert!(!intr.check_wake(), "the wake was consumed");
}

#[test]
fn wait_does_not_complete_without_a_wake() {
    let mut intr = Interrupt::new();
    assert!(!intr.check_wake());
    assert!(!intr.check_wake());
}

#[test]
fn repeated_wakes_coalesce() {
    let mut intr = Interrupt::new();
    intr.interrupt();
    intr.interrupt();
    intr.interrupt();
    assert!(intr.check_wake());
    assert!(!intr.check_wake(), "many wakes satisfy one wait, not several");
}

#[test]
fn wakes_do_not_leak_between_interrupts() {
    let mut a = Interrupt::new();
    let mut b = Interrupt::new();
    a.interrupt();
    assert!(!b.check_wake(), "a wake on one interrupt never completes an unrelated wait");
    assert!(a.check_wake());
}

#[test]
fn interleaved_wakes_and_waits() {
    let mut intr = Interrupt::new();
    // Alternate wakes and observations in a few different orders: every
    // wait preceded by a wake returns, and no wait returns without one.
    assert!(!intr.check_wake());
    intr.interrupt();
    assert!(intr.check_wake());
    intr.interrupt();
    intr.interrupt();
    assert!(intr.check_wake());
    assert!(!intr.check_wake());
    intr.interrupt();
    assert!(intr.check_wake());
}
