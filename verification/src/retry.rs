//! The retry loop that drives one non-blocking operation to completion.
//!
//! The loop runs the operation.  If the operation completes (with a value or
//! with any error other than "would block"), the loop ends and hands that
//! result back.  If it would block, the loop (when its policy says so) reads
//! the session's blocked directions and waits for the matching socket
//! readiness, then sleeps for the policy's backoff and runs the operation
//! again.  A failure while waiting for readiness ends the loop with that
//! failure.

use vstd::prelude::*;
use crate::directions::{read_block_directions, BlockDirections, Interest};

verus! {

/// How one run of a non-blocking operation ended.
#[derive(Clone, Copy, Debug, PartialEq, Eq, Structural)]
pub enum OpOutcome {
    /// The operation returned a value, or an error other than "would block".
    Completed,
    /// The operation returned a "would block" error.
    WouldBlock,
}

/// How a retry loop behaves after an operation would block.
#[derive(Clone, Copy, Debug, PartialEq, Eq, Structural)]
pub struct RetryPolicy {
    /// Read the session's blocked directions and wait for socket readiness
    /// before the backoff.
    pub consult_directions: bool,
    /// The pause before the operation is run again, in milliseconds.
    pub backoff_millis: u64,
}

impl RetryPolicy {
    /// The policy for operations on a session: wait for the readiness that
    /// the blocked directions call for, then pause for one millisecond.
    pub fn session_io() -> (p: RetryPolicy)
        ensures
            p.consult_directions,
            p.backoff_millis == 1,
    {
        RetryPolicy { consult_directions: true, backoff_millis: 1 }
    }

    /// The policy for accepting a forwarded connection: the peer offers no
    /// readiness to wait for, so only pause for ten milliseconds.
    pub fn listener_accept() -> (p: RetryPolicy)
        ensures
            !p.consult_directions,
            p.backoff_millis == 10,
    {
        RetryPolicy { consult_directions: false, backoff_millis: 10 }
    }
}

/// How a finished retry loop ends.
#[derive(Clone, Copy, Debug, PartialEq, Eq, Structural)]
pub enum RetryVerdict {
    /// Hand back the result of the last run of the operation.
    OpResult,
    /// Hand back the error met while waiting for socket readiness.
    ReadinessError,
}

/// Where a retry loop stands.
#[derive(Clone, Copy, Debug, PartialEq, Eq, Structural)]
pub enum RetryPhase {
    /// The operation is being run.
    Attempting,
    /// The session's blocked directions are being read.
    Inspecting,
    /// The socket readiness is being awaited.
    AwaitingReadiness(Interest),
    /// The backoff pause is running.
    BackingOff,
    /// The loop is over.
    Finished(RetryVerdict),
}

/// What happened since the loop last asked for something.
#[derive(Clone, Copy, Debug, PartialEq, Eq, Structural)]
pub enum RetryEvent {
    /// The operation ran, with this outcome.
    OpReturned(OpOutcome),
    /// The session reported these blocked directions.
    DirectionsRead(BlockDirections),
    /// The awaited socket readiness was reached.
    ReadinessReached,
    /// Waiting for socket readiness failed.
    ReadinessFailed,
    /// The backoff pause is over.
    BackoffElapsed,
}

/// What the loop asks its runtime to do next.
#[derive(Clone, Copy, Debug, PartialEq, Eq, Structural)]
pub enum RetryAction {
    /// Run the operation.
    RunOp,
    /// Read the session's blocked directions.
    ReadDirections,
    /// Wait for this socket readiness.
    AwaitReadiness(Interest),
    /// Sleep for this many milliseconds.
    Sleep(u64),
    /// Stop and return the result of the last run of the operation.
    ReturnOpResult,
    /// Stop and return the error met while waiting for readiness.
    ReturnReadinessError,
}

/// A retry loop: its policy and where it stands.
#[derive(Clone, Copy, Debug, PartialEq, Eq, Structural)]
pub struct RetryLoop {
    pub policy: RetryPolicy,
    pub phase: RetryPhase,
}

impl RetryLoop {
    /// The events the loop can take in its phase: each phase takes exactly
    /// the answers to what it asks for, and a finished loop takes none.
    pub open spec fn accepts(self, e: RetryEvent) -> bool {
        match self.phase {
            RetryPhase::Attempting => e is OpReturned,
            RetryPhase::Inspecting => e is DirectionsRead,
            RetryPhase::AwaitingReadiness(_) => e is ReadinessReached || e is ReadinessFailed,
            RetryPhase::BackingOff => e is BackoffElapsed,
            RetryPhase::Finished(_) => false,
        }
    }

    /// What the loop asks for in its phase.
    pub open spec fn request(self) -> RetryAction {
        match self.phase {
            RetryPhase::Attempting => RetryAction::RunOp,
            RetryPhase::Inspecting => RetryAction::ReadDirections,
            RetryPhase::AwaitingReadiness(i) => RetryAction::AwaitReadiness(i),
            RetryPhase::BackingOff => RetryAction::Sleep(self.policy.backoff_millis),
            RetryPhase::Finished(RetryVerdict::OpResult) => RetryAction::ReturnOpResult,
            RetryPhase::Finished(RetryVerdict::ReadinessError) => RetryAction::ReturnReadinessError,
        }
    }

    /// The phase after an accepted event.
    pub open spec fn next_phase(self, e: RetryEvent) -> RetryPhase {
        match (self.phase, e) {
            (RetryPhase::Attempting, RetryEvent::OpReturned(OpOutcome::Completed)) => RetryPhase::Finished(
                RetryVerdict::OpResult,
            ),
            (RetryPhase::Attempting, RetryEvent::OpReturned(OpOutcome::WouldBlock)) => {
                if self.policy.consult_directions {
                    RetryPhase::Inspecting
                } else {
                    RetryPhase::BackingOff
                }
            },
            (RetryPhase::Inspecting, RetryEvent::DirectionsRead(d)) => match d.spec_interest() {
                Some(i) => RetryPhase::AwaitingReadiness(i),
                Option::None => RetryPhase::BackingOff,
            },
            (RetryPhase::AwaitingReadiness(_), RetryEvent::ReadinessReached) => RetryPhase::BackingOff,
            (RetryPhase::AwaitingReadiness(_), RetryEvent::ReadinessFailed) => RetryPhase::Finished(
                RetryVerdict::ReadinessError,
            ),
            (RetryPhase::BackingOff, RetryEvent::BackoffElapsed) => RetryPhase::Attempting,
            _ => self.phase,
        }
    }

    /// The loop after an accepted event.
    pub open spec fn after(self, e: RetryEvent) -> RetryLoop {
        RetryLoop { policy: self.policy, phase: self.next_phase(e) }
    }

    /// A fresh loop with the given policy, about to run the operation.
    pub fn new(policy: RetryPolicy) -> (r: RetryLoop)
        ensures
            r.policy == policy,
            r.phase == RetryPhase::Attempting,
            r.request() == RetryAction::RunOp,
    {
        RetryLoop { policy, phase: RetryPhase::Attempting }
    }

    /// What the loop asks for now.
    pub fn pending(&self) -> (a: RetryAction)
        ensures
            a == self.request(),
    {
        match self.phase {
            RetryPhase::Attempting => RetryAction::RunOp,
            RetryPhase::Inspecting => RetryAction::ReadDirections,
            RetryPhase::AwaitingReadiness(i) => RetryAction::AwaitReadiness(i),
            RetryPhase::BackingOff => RetryAction::Sleep(self.policy.backoff_millis),
            RetryPhase::Finished(RetryVerdict::OpResult) => RetryAction::ReturnOpResult,
            RetryPhase::Finished(RetryVerdict::ReadinessError) => RetryAction::ReturnReadinessError,
        }
    }

    /// Whether the loop can take this event now.
    pub fn accepts_event(&self, e: &RetryEvent) -> (b: bool)
        ensures
            b == self.accepts(*e),
    {
        match self.phase {
            RetryPhase::Attempting => matches!(e, RetryEvent::OpReturned(_)),
            RetryPhase::Inspecting => matches!(e, RetryEvent::DirectionsRead(_)),
            RetryPhase::AwaitingReadiness(_) => matches!(
                e,
                RetryEvent::ReadinessReached | RetryEvent::ReadinessFailed
            ),
            RetryPhase::BackingOff => matches!(e, RetryEvent::BackoffElapsed),
            RetryPhase::Finished(_) => false,
        }
    }

    /// Whether the loop is over.
    pub fn is_finished(&self) -> (b: bool)
        ensures
            b == (self.phase is Finished),
    {
        matches!(self.phase, RetryPhase::Finished(_))
    }

    /// Takes an event that answers what the loop asked for, moves on, and
    /// returns what the loop asks for next.
    pub fn step(&mut self, e: RetryEvent) -> (a: RetryAction)
        requires
            old(self).accepts(e),
        ensures
            *final(self) == old(self).after(e),
            a == final(self).request(),
    {
        let next = match (self.phase, e) {
            (RetryPhase::Attempting, RetryEvent::OpReturned(OpOutcome::Completed)) => RetryPhase::Finished(
                RetryVerdict::OpResult,
            ),
            (RetryPhase::Attempting, RetryEvent::OpReturned(OpOutcome::WouldBlock)) => {
                if self.policy.consult_directions {
                    RetryPhase::Inspecting
                } else {
                    RetryPhase::BackingOff
                }
            },
            (RetryPhase::Inspecting, RetryEvent::DirectionsRead(d)) => match d.interest() {
                Some(i) => RetryPhase::AwaitingReadiness(i),
                Option::None => RetryPhase::BackingOff,
            },
            (RetryPhase::AwaitingReadiness(_), RetryEvent::ReadinessReached) => RetryPhase::BackingOff,
            (RetryPhase::AwaitingReadiness(_), RetryEvent::ReadinessFailed) => RetryPhase::Finished(
                RetryVerdict::ReadinessError,
            ),
            (RetryPhase::BackingOff, RetryEvent::BackoffElapsed) => RetryPhase::Attempting,
            _ => self.phase,
        };
        self.phase = next;
        self.pending()
    }

    /// Answers a request to read the blocked directions by reading them
    /// from `session`; returns the directions read and what the loop asks
    /// for next.
    pub fn inspect(&mut self, session: &ssh2::Session) -> (r: (BlockDirections, RetryAction))
        requires
            old(self).phase == RetryPhase::Inspecting,
        ensures
            *final(self) == old(self).after(RetryEvent::DirectionsRead(r.0)),
            r.1 == final(self).request(),
    {
        let d = read_block_directions(session);
        let a = self.step(RetryEvent::DirectionsRead(d));
        (d, a)
    }
}

impl RetryLoop {
    /// The loop after taking the events in order.
    pub open spec fn replay(self, events: Seq<RetryEvent>) -> RetryLoop
        decreases events.len(),
    {
        if events.len() == 0 {
            self
        } else {
            self.replay(events.drop_last()).after(events.last())
        }
    }

    /// The loop can take the events in order, each when it comes.
    pub open spec fn admits(self, events: Seq<RetryEvent>) -> bool
        decreases events.len(),
    {
        events.len() == 0 || (self.admits(events.drop_last()) && self.replay(
            events.drop_last(),
        ).accepts(events.last()))
    }
}

/// How many runs of the operation the events report.
pub open spec fn count_runs(events: Seq<RetryEvent>) -> nat
    decreases events.len(),
{
    if events.len() == 0 {
        0
    } else {
        count_runs(events.drop_last()) + if events.last() is OpReturned {
            1nat
        } else {
            0nat
        }
    }
}

/// How many backoff pauses the events report as over.
pub open spec fn count_backoffs(events: Seq<RetryEvent>) -> nat
    decreases events.len(),
{
    if events.len() == 0 {
        0
    } else {
        count_backoffs(events.drop_last()) + if events.last() is BackoffElapsed {
            1nat
        } else {
            0nat
        }
    }
}

/// The loop ends with the operation's result exactly on a completed run,
/// and with a readiness error exactly on a failed wait: no other event ends
/// it, and a run that would block never does.
pub proof fn lemma_loop_ends_only_on_completion_or_wait_failure(s: RetryLoop, e: RetryEvent)
    requires
        s.accepts(e),
    ensures
        s.next_phase(e) == RetryPhase::Finished(RetryVerdict::OpResult) <==> e == RetryEvent::OpReturned(
            OpOutcome::Completed,
        ),
        s.next_phase(e) == RetryPhase::Finished(RetryVerdict::ReadinessError) <==> e
            == RetryEvent::ReadinessFailed,
        e == RetryEvent::OpReturned(OpOutcome::WouldBlock) ==> !(s.next_phase(e) is Finished),
{
}

/// The operation is run again only when a backoff pause is over, and every
/// backoff pause lasts exactly the policy's backoff.
pub proof fn lemma_rerun_only_after_backoff(s: RetryLoop, e: RetryEvent)
    requires
        s.accepts(e),
    ensures
        s.after(e).request() == RetryAction::RunOp <==> (s.phase == RetryPhase::BackingOff && e
            == RetryEvent::BackoffElapsed),
        s.after(e).request() is Sleep ==> s.after(e).request() == RetryAction::Sleep(
            s.policy.backoff_millis,
        ),
        s.after(e).policy == s.policy,
{
}

/// Readiness is awaited only right after the blocked directions were read,
/// and it is the readiness those directions call for; the directions are
/// read only under a policy that consults them, right after a run that
/// would block.
pub proof fn lemma_readiness_follows_directions(s: RetryLoop, e: RetryEvent)
    requires
        s.accepts(e),
    ensures
        s.after(e).request() matches RetryAction::AwaitReadiness(i) ==> (
        e matches RetryEvent::DirectionsRead(d) && d.spec_interest() == Some(i)),
        s.after(e).request() == RetryAction::ReadDirections <==> (s.policy.consult_directions && e
            == RetryEvent::OpReturned(OpOutcome::WouldBlock)),
{
}

/// A finished loop takes no further event.
pub proof fn lemma_finished_is_final(s: RetryLoop, e: RetryEvent)
    requires
        s.phase is Finished,
    ensures
        !s.accepts(e),
{
}

/// Over any run of the loop from its start, the operation has been run once
/// at the start and once more after each backoff pause, and never otherwise;
/// the policy never changes.
pub proof fn lemma_runs_follow_backoffs(policy: RetryPolicy, events: Seq<RetryEvent>)
    requires
        (RetryLoop { policy, phase: RetryPhase::Attempting }).admits(events),
    ensures
        ({
            let s = (RetryLoop { policy, phase: RetryPhase::Attempting }).replay(events);
            &&& s.policy == policy
            &&& count_runs(events) == count_backoffs(events) + if s.phase is Attempting {
                0nat
            } else {
                1nat
            }
        }),
    decreases events.len(),
{
    if events.len() > 0 {
        lemma_runs_follow_backoffs(policy, events.drop_last());
    }
}

/// Over any run of the loop from its start, the loop has ended with the
/// operation's result exactly when the last event was a completed run, and
/// with a readiness error exactly when the last event was a failed wait.
pub proof fn lemma_verdict_is_last_event(policy: RetryPolicy, events: Seq<RetryEvent>)
    requires
        (RetryLoop { policy, phase: RetryPhase::Attempting }).admits(events),
        events.len() > 0,
    ensures
        ({
            let s = (RetryLoop { policy, phase: RetryPhase::Attempting }).replay(events);
            &&& s.phase == RetryPhase::Finished(RetryVerdict::OpResult) <==> events.last()
                == RetryEvent::OpReturned(OpOutcome::Completed)
            &&& s.phase == RetryPhase::Finished(RetryVerdict::ReadinessError) <==> events.last()
                == RetryEvent::ReadinessFailed
        }),
{
    let start = RetryLoop { policy, phase: RetryPhase::Attempting };
    lemma_loop_ends_only_on_completion_or_wait_failure(
        start.replay(events.drop_last()),
        events.last(),
    );
}

/// Under a policy that does not consult the blocked directions (as when
/// accepting a forwarded connection), a loop from its start only ever runs
/// the operation, pauses, or ends with the operation's result: it never reads
/// directions, never waits for socket readiness, and so never fails on it.
pub proof fn lemma_no_socket_wait_without_directions(policy: RetryPolicy, events: Seq<RetryEvent>)
    requires
        !policy.consult_directions,
        (RetryLoop { policy, phase: RetryPhase::Attempting }).admits(events),
    ensures
        ({
            let s = (RetryLoop { policy, phase: RetryPhase::Attempting }).replay(events);
            ||| s.phase == RetryPhase::Attempting
            ||| s.phase == RetryPhase::BackingOff
            ||| s.phase == RetryPhase::Finished(RetryVerdict::OpResult)
        }),
    decreases events.len(),
{
    if events.len() > 0 {
        lemma_no_socket_wait_without_directions(policy, events.drop_last());
        lemma_runs_follow_backoffs(policy, events.drop_last());
    }
}

/// Progress: a loop that is not finished takes every answer to what it asks
/// for.  Asked to run the operation it takes either outcome; asked for the
/// directions it takes any directions; waiting for any readiness it takes
/// both the readiness and a failure to reach it; sleeping it takes the end
/// of the pause.  So every request of a running loop can be answered and the
/// loop moves on.
pub proof fn lemma_retry_accepts_every_answer(s: RetryLoop)
    ensures
        s.phase == RetryPhase::Attempting ==> forall|o: OpOutcome|
            #[trigger] s.accepts(RetryEvent::OpReturned(o)),
        s.phase == RetryPhase::Inspecting ==> forall|d: BlockDirections|
            #[trigger] s.accepts(RetryEvent::DirectionsRead(d)),
        s.phase is AwaitingReadiness ==> s.accepts(RetryEvent::ReadinessReached) && s.accepts(
            RetryEvent::ReadinessFailed,
        ),
        s.phase == RetryPhase::BackingOff ==> s.accepts(RetryEvent::BackoffElapsed),
        s.request() == RetryAction::RunOp ==> forall|o: OpOutcome|
            #[trigger] s.accepts(RetryEvent::OpReturned(o)),
        s.request() == RetryAction::ReadDirections ==> forall|d: BlockDirections|
            #[trigger] s.accepts(RetryEvent::DirectionsRead(d)),
        s.request() is AwaitReadiness ==> s.accepts(RetryEvent::ReadinessReached) && s.accepts(
            RetryEvent::ReadinessFailed,
        ),
        s.request() is Sleep ==> s.accepts(RetryEvent::BackoffElapsed),
        !(s.phase is Finished) <==> (exists|e: RetryEvent| #[trigger] s.accepts(e)),
{
    if !(s.phase is Finished) {
        match s.phase {
            RetryPhase::Attempting => {
                assert(s.accepts(RetryEvent::OpReturned(OpOutcome::Completed)));
            },
            RetryPhase::Inspecting => {
                assert(s.accepts(RetryEvent::DirectionsRead(BlockDirections::Neither)));
            },
            RetryPhase::AwaitingReadiness(_) => {
                assert(s.accepts(RetryEvent::ReadinessReached));
            },
            RetryPhase::BackingOff => {
                assert(s.accepts(RetryEvent::BackoffElapsed));
            },
            _ => {},
        }
    }
}

} // verus!
