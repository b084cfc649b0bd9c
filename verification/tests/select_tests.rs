use pasts::poll::Poll;
use pasts::select::Select;
use pasts::task_queue::CapacityError;

#[test]
fn select_only_third_member_becomes_ready() {
    let mut select: Select<&'static str> = Select::new(3);
    assert_eq!(select.register(), Ok(0));
    assert_eq!(select.register(), Ok(1));
    assert_eq!(select.register(), Ok(2));

    let mut polls: [u32; 3] = [0, 0, 0];

    // First pass: nobody is ready yet.
    let mut from: usize = 0;
    while let Some(i) = select.next_pending(from) {
        polls[i] += 1;
        if select.record(i, Poll::Pending) {
            break;
        }
        from = i + 1;
    }
    assert!(!select.finished());
    assert_eq!(polls, [1, 1, 1]);

    // Second pass: only the member at position 2 is ready.
    let mut from: usize = 0;
    while let Some(i) = select.next_pending(from) {
        polls[i] += 1;
        let outcome = if i == 2 { Poll::Ready("third") } else { Poll::Pending };
        if select.record(i, outcome) {
            break;
        }
        from = i + 1;
    }
    assert!(select.finished());
    assert_eq!(polls, [2, 2, 2], "each loser polled exactly as often as it reported Pending");

    // After completion nothing is offered for polling, so the counts stay flat.
    assert_eq!(select.next_pending(0), None);
    assert_eq!(select.next_pending(1), None);
    assert_eq!(polls, [2, 2, 2]);

    assert_eq!(select.into_result(), (2, "third"));
}

#[test]
fn select_short_circuits_within_a_pass() {
    let mut select: Select<u8> = Select::new(3);
    assert_eq!(select.register(), Ok(0));
    assert_eq!(select.register(), Ok(1));
    assert_eq!(select.register(), Ok(2));

    let mut polls: [u32; 3] = [0, 0, 0];
    let mut from: usize = 0;
    while let Some(i) = select.next_pending(from) {
        polls[i] += 1;
        if select.record(i, Poll::Ready(9)) {
            break;
        }
        from = i + 1;
    }
    assert_eq!(polls, [1, 0, 0], "members after the first ready one are not polled");
    assert_eq!(select.into_result(), (0, 9));
}

#[test]
fn select_lowest_ready_position_wins() {
    // Both remaining members would be ready this pass; the ascending scan
    // reaches position 0 first, so it wins the tie.
    let mut select: Select<char> = Select::new(2);
    assert_eq!(select.register(), Ok(0));
    assert_eq!(select.register(), Ok(1));

    let first = select.next_pending(0);
    assert_eq!(first, Some(0));
    assert!(select.record(0, Poll::Ready('a')));
    assert_eq!(select.next_pending(1), None, "the other ready member is abandoned");
    assert_eq!(select.into_result(), (0, 'a'));
}

#[test]
fn select_pass_picks_the_lowest_ready_position() {
    let mut select: Select<char> = Select::new(3);
    assert_eq!(select.register(), Ok(0));
    assert_eq!(select.register(), Ok(1));
    assert_eq!(select.register(), Ok(2));

    let first = select.poll_pass(vec![Poll::Pending, Poll::Pending, Poll::Pending]);
    assert_eq!(first, None, "nobody ready: the pass changes nothing");
    assert!(!select.finished());

    let second = select.poll_pass(vec![Poll::Pending, Poll::Ready('b'), Poll::Ready('c')]);
    assert_eq!(second, Some(1), "the ascending scan stops at the first ready member");
    assert_eq!(select.into_result(), (1, 'b'));
}

#[test]
fn select_rejects_member_beyond_capacity() {
    let mut select: Select<u8> = Select::new(2);
    assert_eq!(select.register(), Ok(0));
    assert_eq!(select.register(), Ok(1));
    assert_eq!(select.register(), Err(CapacityError));
    assert_eq!(select.count(), 2);
    assert_eq!(select.capacity(), 2);
}
