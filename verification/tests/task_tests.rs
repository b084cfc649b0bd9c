use pasts::new_task;
use pasts::poll::Poll;
use pasts::task::Task;
use pasts::task_queue::CapacityError;
use pasts::task_queue::TaskQueue;

#[test]
fn task_records_pending_then_ready() {
    let mut task: Task<i32> = new_task();
    assert!(!task.done());
    assert!(!task.record(Poll::Pending));
    assert!(!task.done(), "a Pending poll leaves the task untouched");
    assert!(task.record(Poll::Ready(3)));
    assert!(task.done());
    assert_eq!(task.take_output(), 3);
}

#[test]
fn queue_never_offers_a_completed_slot() {
    let mut queue = TaskQueue::new(2);
    assert_eq!(queue.register(), Ok(0));
    assert_eq!(queue.register(), Ok(1));
    assert_eq!(queue.next_pending(0), Some(0));

    queue.mark_done(0);
    assert_eq!(queue.next_pending(0), Some(1), "the completed slot is skipped");
    assert!(!queue.all_done());

    queue.mark_done(1);
    assert_eq!(queue.next_pending(0), None, "nothing left to poll");
    assert!(queue.all_done());
}

#[test]
fn queue_rejects_registration_beyond_capacity() {
    let mut queue = TaskQueue::new(2);
    assert_eq!(queue.register(), Ok(0));
    assert_eq!(queue.register(), Ok(1));
    assert_eq!(queue.register(), Err(CapacityError));
    assert_eq!(queue.count(), 2, "the rejected member neither drops nor overwrites a slot");
    assert_eq!(queue.capacity(), 2);
}

#[test]
fn queue_of_capacity_zero_accepts_nothing() {
    let mut queue = TaskQueue::new(0);
    assert_eq!(queue.register(), Err(CapacityError));
    assert!(queue.all_done());
    assert_eq!(queue.next_pending(0), None);
}
