use async_ssh2_tokio::directions::BlockDirections;
use async_ssh2_tokio::poll_pass::{
    verdict_after_last_poll, PollAction, PollEvent, PollPass, PollPhase, PollVerdict,
    ReadinessPoll, WAKE_DELAY_MILLIS,
};
use async_ssh2_tokio::retry::OpOutcome;

fn drive(events: &[PollEvent]) -> (PollPass, Vec<PollAction>) {
    let mut p = PollPass::new();
    let mut actions = vec![p.pending()];
    for e in events {
        assert!(p.accepts_event(e), "event {:?} not accepted in {:?}", e, p.phase);
        actions.push(p.step(*e));
    }
    (p, actions)
}

const WOULD_BLOCK: PollEvent = PollEvent::OpReturned(OpOutcome::WouldBlock);

#[test]
fn completed_operation_is_ready_with_its_result() {
    let (p, actions) = drive(&[PollEvent::OpReturned(OpOutcome::Completed)]);
    assert_eq!(actions, vec![PollAction::RunOp, PollAction::ReturnOpResult]);
    assert!(p.is_concluded());
}

#[test]
fn nothing_blocked_wakes_after_one_millisecond() {
    let (p, actions) = drive(&[WOULD_BLOCK, PollEvent::DirectionsRead(BlockDirections::Neither)]);
    assert_eq!(
        actions,
        vec![
            PollAction::RunOp,
            PollAction::ReadDirections,
            PollAction::WakeLaterAndReturnPending(1),
        ]
    );
    assert_eq!(WAKE_DELAY_MILLIS, 1);
    assert_eq!(p.phase, PollPhase::Concluded(PollVerdict::PendingOnTimer));
}

#[test]
fn inbound_not_readable_is_pending_on_the_socket() {
    let (_, actions) = drive(&[
        WOULD_BLOCK,
        PollEvent::DirectionsRead(BlockDirections::Inbound),
        PollEvent::ReadinessPolled(ReadinessPoll::Pending),
    ]);
    assert_eq!(
        actions,
        vec![
            PollAction::RunOp,
            PollAction::ReadDirections,
            PollAction::PollReadable,
            PollAction::ReturnPending,
        ]
    );
}

#[test]
fn inbound_readable_wakes_later() {
    let (_, actions) = drive(&[
        WOULD_BLOCK,
        PollEvent::DirectionsRead(BlockDirections::Inbound),
        PollEvent::ReadinessPolled(ReadinessPoll::Ready),
    ]);
    assert_eq!(actions.last(), Some(&PollAction::WakeLaterAndReturnPending(1)));
}

#[test]
fn outbound_polls_only_writable() {
    let (_, actions) = drive(&[
        WOULD_BLOCK,
        PollEvent::DirectionsRead(BlockDirections::Outbound),
        PollEvent::ReadinessPolled(ReadinessPoll::Ready),
    ]);
    assert_eq!(
        actions,
        vec![
            PollAction::RunOp,
            PollAction::ReadDirections,
            PollAction::PollWritable,
            PollAction::WakeLaterAndReturnPending(1),
        ]
    );
}

#[test]
fn both_polls_readable_then_writable() {
    let (_, actions) = drive(&[
        WOULD_BLOCK,
        PollEvent::DirectionsRead(BlockDirections::Both),
        PollEvent::ReadinessPolled(ReadinessPoll::Ready),
        PollEvent::ReadinessPolled(ReadinessPoll::Pending),
    ]);
    assert_eq!(
        actions,
        vec![
            PollAction::RunOp,
            PollAction::ReadDirections,
            PollAction::PollReadable,
            PollAction::PollWritable,
            PollAction::ReturnPending,
        ]
    );
}

#[test]
fn both_not_readable_skips_the_writable_poll() {
    let (p, actions) = drive(&[
        WOULD_BLOCK,
        PollEvent::DirectionsRead(BlockDirections::Both),
        PollEvent::ReadinessPolled(ReadinessPoll::Pending),
    ]);
    assert_eq!(actions.last(), Some(&PollAction::ReturnPending));
    assert!(p.is_concluded());
}

#[test]
fn readiness_failure_is_ready_with_the_error() {
    let (_, actions) = drive(&[
        WOULD_BLOCK,
        PollEvent::DirectionsRead(BlockDirections::Both),
        PollEvent::ReadinessPolled(ReadinessPoll::Failed),
    ]);
    assert_eq!(actions.last(), Some(&PollAction::ReturnReadinessError));
    let (_, actions) = drive(&[
        WOULD_BLOCK,
        PollEvent::DirectionsRead(BlockDirections::Both),
        PollEvent::ReadinessPolled(ReadinessPoll::Ready),
        PollEvent::ReadinessPolled(ReadinessPoll::Failed),
    ]);
    assert_eq!(actions.last(), Some(&PollAction::ReturnReadinessError));
}

#[test]
fn verdicts_after_the_last_readiness_poll() {
    assert_eq!(verdict_after_last_poll(ReadinessPoll::Pending), PollVerdict::PendingOnSocket);
    assert_eq!(verdict_after_last_poll(ReadinessPoll::Ready), PollVerdict::PendingOnTimer);
    assert_eq!(verdict_after_last_poll(ReadinessPoll::Failed), PollVerdict::ReadinessError);
}

#[test]
fn concluded_poll_takes_no_event() {
    let (p, _) = drive(&[PollEvent::OpReturned(OpOutcome::Completed)]);
    assert!(!p.accepts_event(&PollEvent::OpReturned(OpOutcome::Completed)));
    assert!(!p.accepts_event(&PollEvent::ReadinessPolled(ReadinessPoll::Ready)));
    assert!(!p.accepts_event(&PollEvent::DirectionsRead(BlockDirections::Neither)));
}

#[test]
fn fresh_poll_takes_only_an_operation_outcome() {
    let p = PollPass::new();
    assert!(p.accepts_event(&WOULD_BLOCK));
    assert!(!p.accepts_event(&PollEvent::ReadinessPolled(ReadinessPoll::Ready)));
    assert!(!p.accepts_event(&PollEvent::DirectionsRead(BlockDirections::Inbound)));
}
