use pasts::poll::Poll;
use pasts::run::{run_step, run_trace, Control};

#[test]
fn run_trace_stops_at_first_ready() {
    let outcomes: Vec<Poll<i32>> = vec![
        Poll::Pending,
        Poll::Pending,
        Poll::Ready(5),
        Poll::Ready(9),
    ];
    assert_eq!(
        run_trace(outcomes),
        Some((2, 5)),
        "two parks, then the first Ready ends the loop; the later Ready is never polled"
    );
}

#[test]
fn run_trace_returns_nothing_while_everything_is_pending() {
    let outcomes: Vec<Poll<u8>> = vec![Poll::Pending, Poll::Pending, Poll::Pending];
    assert_eq!(run_trace(outcomes), None, "the loop is still parked when the trace runs out");
}

#[test]
fn run_trace_finishes_on_an_immediately_ready_task() {
    let outcomes: Vec<Poll<&'static str>> = vec![Poll::Ready("now")];
    assert_eq!(run_trace(outcomes), Some((0, "now")));
}

#[test]
fn run_step_decision_matches_the_poll() {
    let ready: Poll<u32> = Poll::Ready(42);
    assert!(matches!(run_step(ready), Control::Finish(42)));

    let pending: Poll<u32> = Poll::Pending;
    assert!(matches!(run_step(pending), Control::Park));
}
