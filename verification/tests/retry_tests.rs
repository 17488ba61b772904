use async_ssh2_tokio::directions::{BlockDirections, Interest};
use async_ssh2_tokio::retry::{
    OpOutcome, RetryAction, RetryEvent, RetryLoop, RetryPhase, RetryPolicy, RetryVerdict,
};

/// Feeds the events in order and collects every action, the first included.
fn drive(policy: RetryPolicy, events: &[RetryEvent]) -> (RetryLoop, Vec<RetryAction>) {
    let mut l = RetryLoop::new(policy);
    let mut actions = vec![l.pending()];
    for e in events {
        assert!(l.accepts_event(e), "event {:?} not accepted in {:?}", e, l.phase);
        actions.push(l.step(*e));
    }
    (l, actions)
}

#[test]
fn session_policy_consults_directions_and_pauses_one_millisecond() {
    let p = RetryPolicy::session_io();
    assert!(p.consult_directions);
    assert_eq!(p.backoff_millis, 1);
}

#[test]
fn listener_policy_only_pauses_ten_milliseconds() {
    let p = RetryPolicy::listener_accept();
    assert!(!p.consult_directions);
    assert_eq!(p.backoff_millis, 10);
}

#[test]
fn completed_first_run_returns_its_result() {
    let (l, actions) = drive(
        RetryPolicy::session_io(),
        &[RetryEvent::OpReturned(OpOutcome::Completed)],
    );
    assert_eq!(actions, vec![RetryAction::RunOp, RetryAction::ReturnOpResult]);
    assert_eq!(l.phase, RetryPhase::Finished(RetryVerdict::OpResult));
    assert!(l.is_finished());
}

#[test]
fn would_block_inbound_waits_readable_then_retries() {
    let (l, actions) = drive(
        RetryPolicy::session_io(),
        &[
            RetryEvent::OpReturned(OpOutcome::WouldBlock),
            RetryEvent::DirectionsRead(BlockDirections::Inbound),
            RetryEvent::ReadinessReached,
            RetryEvent::BackoffElapsed,
            RetryEvent::OpReturned(OpOutcome::Completed),
        ],
    );
    assert_eq!(
        actions,
        vec![
            RetryAction::RunOp,
            RetryAction::ReadDirections,
            RetryAction::AwaitReadiness(Interest::Readable),
            RetryAction::Sleep(1),
            RetryAction::RunOp,
            RetryAction::ReturnOpResult,
        ]
    );
    assert!(l.is_finished());
}

#[test]
fn would_block_both_waits_for_both() {
    let (_, actions) = drive(
        RetryPolicy::session_io(),
        &[
            RetryEvent::OpReturned(OpOutcome::WouldBlock),
            RetryEvent::DirectionsRead(BlockDirections::Both),
        ],
    );
    assert_eq!(
        actions.last(),
        Some(&RetryAction::AwaitReadiness(Interest::ReadableAndWritable))
    );
}

#[test]
fn would_block_outbound_waits_for_writable() {
    let (_, actions) = drive(
        RetryPolicy::session_io(),
        &[
            RetryEvent::OpReturned(OpOutcome::WouldBlock),
            RetryEvent::DirectionsRead(BlockDirections::Outbound),
        ],
    );
    assert_eq!(actions.last(), Some(&RetryAction::AwaitReadiness(Interest::Writable)));
}

#[test]
fn nothing_blocked_goes_straight_to_the_pause() {
    let (l, actions) = drive(
        RetryPolicy::session_io(),
        &[
            RetryEvent::OpReturned(OpOutcome::WouldBlock),
            RetryEvent::DirectionsRead(BlockDirections::Neither),
        ],
    );
    assert_eq!(actions.last(), Some(&RetryAction::Sleep(1)));
    assert_eq!(l.phase, RetryPhase::BackingOff);
}

#[test]
fn readiness_failure_ends_the_loop_with_that_error() {
    let (l, actions) = drive(
        RetryPolicy::session_io(),
        &[
            RetryEvent::OpReturned(OpOutcome::WouldBlock),
            RetryEvent::DirectionsRead(BlockDirections::Outbound),
            RetryEvent::ReadinessFailed,
        ],
    );
    assert_eq!(actions.last(), Some(&RetryAction::ReturnReadinessError));
    assert_eq!(l.phase, RetryPhase::Finished(RetryVerdict::ReadinessError));
}

#[test]
fn listener_retries_after_ten_milliseconds_without_directions() {
    let (l, actions) = drive(
        RetryPolicy::listener_accept(),
        &[
            RetryEvent::OpReturned(OpOutcome::WouldBlock),
            RetryEvent::BackoffElapsed,
            RetryEvent::OpReturned(OpOutcome::WouldBlock),
            RetryEvent::BackoffElapsed,
            RetryEvent::OpReturned(OpOutcome::Completed),
        ],
    );
    assert_eq!(
        actions,
        vec![
            RetryAction::RunOp,
            RetryAction::Sleep(10),
            RetryAction::RunOp,
            RetryAction::Sleep(10),
            RetryAction::RunOp,
            RetryAction::ReturnOpResult,
        ]
    );
    assert!(l.is_finished());
}

#[test]
fn loop_takes_only_the_answer_it_asked_for() {
    let l = RetryLoop::new(RetryPolicy::session_io());
    assert!(l.accepts_event(&RetryEvent::OpReturned(OpOutcome::WouldBlock)));
    assert!(!l.accepts_event(&RetryEvent::BackoffElapsed));
    assert!(!l.accepts_event(&RetryEvent::ReadinessReached));
    assert!(!l.accepts_event(&RetryEvent::DirectionsRead(BlockDirections::Both)));
}

#[test]
fn finished_loop_takes_no_event() {
    let (l, _) = drive(
        RetryPolicy::session_io(),
        &[RetryEvent::OpReturned(OpOutcome::Completed)],
    );
    for e in [
        RetryEvent::OpReturned(OpOutcome::Completed),
        RetryEvent::OpReturned(OpOutcome::WouldBlock),
        RetryEvent::DirectionsRead(BlockDirections::Inbound),
        RetryEvent::ReadinessReached,
        RetryEvent::ReadinessFailed,
        RetryEvent::BackoffElapsed,
    ] {
        assert!(!l.accepts_event(&e));
    }
    assert_eq!(l.pending(), RetryAction::ReturnOpResult);
}

#[test]
fn custom_backoff_is_the_sleep_asked_for() {
    let p = RetryPolicy { consult_directions: true, backoff_millis: 250 };
    let (_, actions) = drive(
        p,
        &[
            RetryEvent::OpReturned(OpOutcome::WouldBlock),
            RetryEvent::DirectionsRead(BlockDirections::Inbound),
            RetryEvent::ReadinessReached,
        ],
    );
    assert_eq!(actions.last(), Some(&RetryAction::Sleep(250)));
}
