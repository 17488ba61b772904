//! One poll of a non-blocking operation on behalf of a task.
//!
//! A poll runs the operation once.  If the operation completes (with a value
//! or with any error other than "would block"), the poll is ready with that
//! result.  Otherwise the poll reads the session's blocked directions and
//! polls the socket for the matching readiness: readable first when inbound
//! is blocked, then writable when outbound is blocked.  If the socket is not
//! ready the poll is pending, and the socket has registered the task to be
//! woken.  If polling the socket fails, the poll is ready with that failure.
//! If the socket is ready (or nothing is blocked), the poll arranges for the
//! task to be woken after a short delay and is pending.

use vstd::prelude::*;
use crate::directions::{read_block_directions, BlockDirections};
use crate::retry::OpOutcome;

verus! {

/// The delay, in milliseconds, after which a task whose poll found the
/// socket ready is woken to poll again.
pub const WAKE_DELAY_MILLIS: u64 = 1;

/// The answer of the socket to a readiness poll.
#[derive(Clone, Copy, Debug, PartialEq, Eq, Structural)]
pub enum ReadinessPoll {
    /// Not ready yet; the socket has registered the task to be woken.
    Pending,
    /// Ready.
    Ready,
    /// Polling for readiness failed.
    Failed,
}

/// How a poll ends.
#[derive(Clone, Copy, Debug, PartialEq, Eq, Structural)]
pub enum PollVerdict {
    /// Ready with the result of the operation.
    OpResult,
    /// Ready with the failure of a readiness poll.
    ReadinessError,
    /// Pending; the socket will wake the task.
    PendingOnSocket,
    /// Pending; a timer is to wake the task.
    PendingOnTimer,
}

/// Where a poll stands.
#[derive(Clone, Copy, Debug, PartialEq, Eq, Structural)]
pub enum PollPhase {
    /// The operation is being run.
    Attempting,
    /// The session's blocked directions are being read.
    Inspecting,
    /// The socket is being polled for readability; when it is ready, it is
    /// to be polled for writability next if `then_writable`.
    PollingReadable { then_writable: bool },
    /// The socket is being polled for writability.
    PollingWritable,
    /// The poll is over.
    Concluded(PollVerdict),
}

/// What happened since the poll last asked for something.
#[derive(Clone, Copy, Debug, PartialEq, Eq, Structural)]
pub enum PollEvent {
    /// The operation ran, with this outcome.
    OpReturned(OpOutcome),
    /// The session reported these blocked directions.
    DirectionsRead(BlockDirections),
    /// The socket answered a readiness poll.
    ReadinessPolled(ReadinessPoll),
}

/// What the poll asks its runtime to do next.
#[derive(Clone, Copy, Debug, PartialEq, Eq, Structural)]
pub enum PollAction {
    /// Run the operation.
    RunOp,
    /// Read the session's blocked directions.
    ReadDirections,
    /// Poll the socket for readability.
    PollReadable,
    /// Poll the socket for writability.
    PollWritable,
    /// Be ready with the result of the operation.
    ReturnOpResult,
    /// Be ready with the failure of the readiness poll.
    ReturnReadinessError,
    /// Be pending; the socket holds the task's waker.
    ReturnPending,
    /// Arrange for the task to be woken after this many milliseconds, and be
    /// pending.
    WakeLaterAndReturnPending(u64),
}

/// One poll: where it stands.
#[derive(Clone, Copy, Debug, PartialEq, Eq, Structural)]
pub struct PollPass {
    pub phase: PollPhase,
}

/// The verdict after a readiness poll answered `r`, when nothing else is to
/// be polled.
pub open spec fn last_poll_verdict(r: ReadinessPoll) -> PollVerdict {
    match r {
        ReadinessPoll::Pending => PollVerdict::PendingOnSocket,
        ReadinessPoll::Ready => PollVerdict::PendingOnTimer,
        ReadinessPoll::Failed => PollVerdict::ReadinessError,
    }
}

impl PollPass {
    /// The events the poll can take in its phase: each phase takes exactly
    /// the answers to what it asks for, and a concluded poll takes none.
    pub open spec fn accepts(self, e: PollEvent) -> bool {
        match self.phase {
            PollPhase::Attempting => e is OpReturned,
            PollPhase::Inspecting => e is DirectionsRead,
            PollPhase::PollingReadable { .. } => e is ReadinessPolled,
            PollPhase::PollingWritable => e is ReadinessPolled,
            PollPhase::Concluded(_) => false,
        }
    }

    /// What the poll asks for in its phase.
    pub open spec fn request(self) -> PollAction {
        match self.phase {
            PollPhase::Attempting => PollAction::RunOp,
            PollPhase::Inspecting => PollAction::ReadDirections,
            PollPhase::PollingReadable { .. } => PollAction::PollReadable,
            PollPhase::PollingWritable => PollAction::PollWritable,
            PollPhase::Concluded(PollVerdict::OpResult) => PollAction::ReturnOpResult,
            PollPhase::Concluded(PollVerdict::ReadinessError) => PollAction::ReturnReadinessError,
            PollPhase::Concluded(PollVerdict::PendingOnSocket) => PollAction::ReturnPending,
            PollPhase::Concluded(PollVerdict::PendingOnTimer) => PollAction::WakeLaterAndReturnPending(
                WAKE_DELAY_MILLIS,
            ),
        }
    }

    /// The phase after an accepted event.
    pub open spec fn next_phase(self, e: PollEvent) -> PollPhase {
        match (self.phase, e) {
            (PollPhase::Attempting, PollEvent::OpReturned(OpOutcome::Completed)) => PollPhase::Concluded(
                PollVerdict::OpResult,
            ),
            (PollPhase::Attempting, PollEvent::OpReturned(OpOutcome::WouldBlock)) => PollPhase::Inspecting,
            (PollPhase::Inspecting, PollEvent::DirectionsRead(d)) => match d {
                BlockDirections::Neither => PollPhase::Concluded(PollVerdict::PendingOnTimer),
                BlockDirections::Inbound => PollPhase::PollingReadable { then_writable: false },
                BlockDirections::Outbound => PollPhase::PollingWritable,
                BlockDirections::Both => PollPhase::PollingReadable { then_writable: true },
            },
            (PollPhase::PollingReadable { then_writable }, PollEvent::ReadinessPolled(r)) => {
                if then_writable && r == ReadinessPoll::Ready {
                    PollPhase::PollingWritable
                } else {
                    PollPhase::Concluded(last_poll_verdict(r))
                }
            },
            (PollPhase::PollingWritable, PollEvent::ReadinessPolled(r)) => PollPhase::Concluded(
                last_poll_verdict(r),
            ),
            _ => self.phase,
        }
    }

    /// The poll after an accepted event.
    pub open spec fn after(self, e: PollEvent) -> PollPass {
        PollPass { phase: self.next_phase(e) }
    }

    /// A fresh poll, about to run the operation.
    pub fn new() -> (p: PollPass)
        ensures
            p.phase == PollPhase::Attempting,
            p.request() == PollAction::RunOp,
    {
        PollPass { phase: PollPhase::Attempting }
    }

    /// What the poll asks for now.
    pub fn pending(&self) -> (a: PollAction)
        ensures
            a == self.request(),
    {
        match self.phase {
            PollPhase::Attempting => PollAction::RunOp,
            PollPhase::Inspecting => PollAction::ReadDirections,
            PollPhase::PollingReadable { .. } => PollAction::PollReadable,
            PollPhase::PollingWritable => PollAction::PollWritable,
            PollPhase::Concluded(PollVerdict::OpResult) => PollAction::ReturnOpResult,
            PollPhase::Concluded(PollVerdict::ReadinessError) => PollAction::ReturnReadinessError,
            PollPhase::Concluded(PollVerdict::PendingOnSocket) => PollAction::ReturnPending,
            PollPhase::Concluded(PollVerdict::PendingOnTimer) => PollAction::WakeLaterAndReturnPending(
                WAKE_DELAY_MILLIS,
            ),
        }
    }

    /// Whether the poll can take this event now.
    pub fn accepts_event(&self, e: &PollEvent) -> (b: bool)
        ensures
            b == self.accepts(*e),
    {
        match self.phase {
            PollPhase::Attempting => matches!(e, PollEvent::OpReturned(_)),
            PollPhase::Inspecting => matches!(e, PollEvent::DirectionsRead(_)),
            PollPhase::PollingReadable { .. } => matches!(e, PollEvent::ReadinessPolled(_)),
            PollPhase::PollingWritable => matches!(e, PollEvent::ReadinessPolled(_)),
            PollPhase::Concluded(_) => false,
        }
    }

    /// Whether the poll is over.
    pub fn is_concluded(&self) -> (b: bool)
        ensures
            b == (self.phase is Concluded),
    {
        matches!(self.phase, PollPhase::Concluded(_))
    }

    /// Takes an event that answers what the poll asked for, moves on, and
    /// returns what the poll asks for next.
    pub fn step(&mut self, e: PollEvent) -> (a: PollAction)
        requires
            old(self).accepts(e),
        ensures
            *final(self) == old(self).after(e),
            a == final(self).request(),
    {
        let next = match (self.phase, e) {
            (PollPhase::Attempting, PollEvent::OpReturned(OpOutcome::Completed)) => PollPhase::Concluded(
                PollVerdict::OpResult,
            ),
            (PollPhase::Attempting, PollEvent::OpReturned(OpOutcome::WouldBlock)) => PollPhase::Inspecting,
            (PollPhase::Inspecting, PollEvent::DirectionsRead(d)) => match d {
                BlockDirections::Neither => PollPhase::Concluded(PollVerdict::PendingOnTimer),
                BlockDirections::Inbound => PollPhase::PollingReadable { then_writable: false },
                BlockDirections::Outbound => PollPhase::PollingWritable,
                BlockDirections::Both => PollPhase::PollingReadable { then_writable: true },
            },
            (PollPhase::PollingReadable { then_writable }, PollEvent::ReadinessPolled(r)) => {
                if then_writable && r == ReadinessPoll::Ready {
                    PollPhase::PollingWritable
                } else {
                    PollPhase::Concluded(verdict_after_last_poll(r))
                }
            },
            (PollPhase::PollingWritable, PollEvent::ReadinessPolled(r)) => PollPhase::Concluded(
                verdict_after_last_poll(r),
            ),
            _ => self.phase,
        };
        self.phase = next;
        self.pending()
    }

    /// Answers a request to read the blocked directions by reading them
    /// from `session`; returns the directions read and what the poll asks
    /// for next.
    pub fn inspect(&mut self, session: &ssh2::Session) -> (r: (BlockDirections, PollAction))
        requires
            old(self).phase == PollPhase::Inspecting,
        ensures
            *final(self) == old(self).after(PollEvent::DirectionsRead(r.0)),
            r.1 == final(self).request(),
    {
        let d = read_block_directions(session);
        let a = self.step(PollEvent::DirectionsRead(d));
        (d, a)
    }
}

/// The verdict after the last readiness poll answered `r`: pending on the
/// socket when it is not ready, pending on a timer when it is ready, and
/// ready with the failure when polling failed.
pub fn verdict_after_last_poll(r: ReadinessPoll) -> (v: PollVerdict)
    ensures
        v == last_poll_verdict(r),
{
    match r {
        ReadinessPoll::Pending => PollVerdict::PendingOnSocket,
        ReadinessPoll::Ready => PollVerdict::PendingOnTimer,
        ReadinessPoll::Failed => PollVerdict::ReadinessError,
    }
}

impl PollPass {
    /// The poll after taking the events in order.
    pub open spec fn replay(self, events: Seq<PollEvent>) -> PollPass
        decreases events.len(),
    {
        if events.len() == 0 {
            self
        } else {
            self.replay(events.drop_last()).after(events.last())
        }
    }

    /// The poll can take the events in order, each when it comes.
    pub open spec fn admits(self, events: Seq<PollEvent>) -> bool
        decreases events.len(),
    {
        events.len() == 0 || (self.admits(events.drop_last()) && self.replay(
            events.drop_last(),
        ).accepts(events.last()))
    }

    /// How many more events the poll can take at most.
    pub open spec fn remaining(self) -> nat {
        match self.phase {
            PollPhase::Attempting => 4,
            PollPhase::Inspecting => 3,
            PollPhase::PollingReadable { .. } => 2,
            PollPhase::PollingWritable => 1,
            PollPhase::Concluded(_) => 0,
        }
    }
}

/// A poll is ready with the operation's result exactly when the operation
/// completed; an operation that would block never makes the poll ready with
/// a result.
pub proof fn lemma_result_only_on_completion(s: PollPass, e: PollEvent)
    requires
        s.accepts(e),
    ensures
        s.next_phase(e) == PollPhase::Concluded(PollVerdict::OpResult) <==> (s.phase
            == PollPhase::Attempting && e == PollEvent::OpReturned(OpOutcome::Completed)),
        e == PollEvent::OpReturned(OpOutcome::WouldBlock) ==> s.next_phase(e)
            == PollPhase::Inspecting,
{
}

/// A poll never ends pending without a way to be woken: it is pending on the
/// socket only right after the socket answered "not ready" (and so holds the
/// task's waker), and otherwise it arranges a timer wake-up before it is
/// pending.  A socket that is not ready, or whose poll failed, always ends
/// the poll.
pub proof fn lemma_pending_has_waker(s: PollPass, e: PollEvent)
    requires
        s.accepts(e),
    ensures
        s.after(e).request() == PollAction::ReturnPending ==> e == PollEvent::ReadinessPolled(
            ReadinessPoll::Pending,
        ),
        s.after(e).request() is WakeLaterAndReturnPending ==> s.after(e).request()
            == PollAction::WakeLaterAndReturnPending(WAKE_DELAY_MILLIS),
        e == PollEvent::ReadinessPolled(ReadinessPoll::Pending) ==> s.after(e).request()
            == PollAction::ReturnPending,
        e == PollEvent::ReadinessPolled(ReadinessPoll::Failed) ==> s.after(e).request()
            == PollAction::ReturnReadinessError,
        s.after(e).request() == PollAction::ReturnReadinessError ==> e == PollEvent::ReadinessPolled(
            ReadinessPoll::Failed,
        ),
{
}

/// The socket is polled for readability only when inbound is blocked, and
/// for writability only when outbound is blocked; when both are blocked it
/// is polled for writability only after it was found readable.
pub proof fn lemma_polls_follow_directions(s: PollPass, e: PollEvent)
    requires
        s.accepts(e),
    ensures
        s.after(e).phase matches PollPhase::PollingReadable { then_writable } ==> (
        e matches PollEvent::DirectionsRead(d) && d.blocks_inbound() && then_writable
            == d.blocks_outbound()),
        s.after(e).phase == PollPhase::PollingWritable ==> (e == PollEvent::DirectionsRead(
            BlockDirections::Outbound,
        ) || (s.phase == PollPhase::PollingReadable { then_writable: true } && e
            == PollEvent::ReadinessPolled(ReadinessPoll::Ready))),
        s.after(e).phase == PollPhase::Concluded(PollVerdict::PendingOnTimer) && e is DirectionsRead
            ==> e == PollEvent::DirectionsRead(BlockDirections::Neither),
{
}

/// A concluded poll takes no further event.
pub proof fn lemma_concluded_is_final(s: PollPass, e: PollEvent)
    requires
        s.phase is Concluded,
    ensures
        !s.accepts(e),
{
}

/// Every poll from its start takes at most four events, and it runs the
/// operation at most once, as its very first step.
pub proof fn lemma_poll_is_short(events: Seq<PollEvent>)
    requires
        (PollPass { phase: PollPhase::Attempting }).admits(events),
    ensures
        events.len() + (PollPass { phase: PollPhase::Attempting }).replay(events).remaining() <= 4,
        events.len() > 0 ==> !((PollPass { phase: PollPhase::Attempting }).replay(
            events,
        ).phase is Attempting),
        forall|i: int| 0 < i < events.len() ==> !(#[trigger] events[i] is OpReturned),
    decreases events.len(),
{
    let start = PollPass { phase: PollPhase::Attempting };
    if events.len() > 0 {
        let prefix = events.drop_last();
        lemma_poll_is_short(prefix);
        assert forall|i: int| 0 < i < events.len() implies !(#[trigger] events[i] is OpReturned) by {
            if i < events.len() - 1 {
                assert(events[i] == prefix[i]);
            }
        }
    }
}

/// Progress: a poll that is not concluded takes every answer to what it asks
/// for.  Asked to run the operation it takes either outcome; asked for the
/// directions it takes any directions; polling the socket for readability
/// (whether or not writability is to follow) or for writability it takes
/// every answer of the socket: not ready, ready, and failed.  So every
/// request of a running poll can be answered and the poll moves on.
pub proof fn lemma_poll_accepts_every_answer(s: PollPass)
    ensures
        s.phase == PollPhase::Attempting ==> forall|o: OpOutcome|
            #[trigger] s.accepts(PollEvent::OpReturned(o)),
        s.phase == PollPhase::Inspecting ==> forall|d: BlockDirections|
            #[trigger] s.accepts(PollEvent::DirectionsRead(d)),
        s.phase is PollingReadable ==> forall|r: ReadinessPoll|
            #[trigger] s.accepts(PollEvent::ReadinessPolled(r)),
        s.phase == PollPhase::PollingWritable ==> forall|r: ReadinessPoll|
            #[trigger] s.accepts(PollEvent::ReadinessPolled(r)),
        s.request() == PollAction::RunOp ==> forall|o: OpOutcome|
            #[trigger] s.accepts(PollEvent::OpReturned(o)),
        s.request() == PollAction::ReadDirections ==> forall|d: BlockDirections|
            #[trigger] s.accepts(PollEvent::DirectionsRead(d)),
        s.request() == PollAction::PollReadable || s.request() == PollAction::PollWritable
            ==> forall|r: ReadinessPoll| #[trigger] s.accepts(PollEvent::ReadinessPolled(r)),
        !(s.phase is Concluded) <==> (exists|e: PollEvent| #[trigger] s.accepts(e)),
{
    if !(s.phase is Concluded) {
        match s.phase {
            PollPhase::Attempting => {
                assert(s.accepts(PollEvent::OpReturned(OpOutcome::Completed)));
            },
            PollPhase::Inspecting => {
                assert(s.accepts(PollEvent::DirectionsRead(BlockDirections::Neither)));
            },
            _ => {
                assert(s.accepts(PollEvent::ReadinessPolled(ReadinessPoll::Ready)));
            },
        }
    }
}

} // verus!
