//! Blocked directions of a session and the socket readiness they call for.

use vstd::prelude::*;

verus! {

/// The directions in which a non-blocking SSH session was blocked when its
/// last operation could not make progress.
#[derive(Clone, Copy, Debug, PartialEq, Eq, Structural)]
pub enum BlockDirections {
    /// No direction is blocked.
    Neither,
    /// The session waits for data from the peer.
    Inbound,
    /// The session waits for room to send data to the peer.
    Outbound,
    /// The session waits in both directions.
    Both,
}

/// The socket readiness that has to be reached before an operation is tried
/// again.
#[derive(Clone, Copy, Debug, PartialEq, Eq, Structural)]
pub enum Interest {
    /// The socket has to become readable.
    Readable,
    /// The socket has to become writable.
    Writable,
    /// The socket has to become readable and writable.
    ReadableAndWritable,
}

impl BlockDirections {
    /// The session waits for data from the peer.
    pub open spec fn blocks_inbound(self) -> bool {
        self is Inbound || self is Both
    }

    /// The session waits for room to send data to the peer.
    pub open spec fn blocks_outbound(self) -> bool {
        self is Outbound || self is Both
    }

    /// The readiness to wait for: none when nothing is blocked, otherwise
    /// the readiness of exactly the blocked directions.
    pub open spec fn spec_interest(self) -> Option<Interest> {
        match self {
            BlockDirections::Neither => Option::None,
            BlockDirections::Inbound => Some(Interest::Readable),
            BlockDirections::Outbound => Some(Interest::Writable),
            BlockDirections::Both => Some(Interest::ReadableAndWritable),
        }
    }

    /// The readiness to wait for before the operation is tried again.
    pub fn interest(self) -> (r: Option<Interest>)
        ensures
            r == self.spec_interest(),
    {
        match self {
            BlockDirections::Neither => Option::None,
            BlockDirections::Inbound => Some(Interest::Readable),
            BlockDirections::Outbound => Some(Interest::Writable),
            BlockDirections::Both => Some(Interest::ReadableAndWritable),
        }
    }
}

impl Interest {
    /// Waiting for this readiness includes waiting until the socket is readable.
    pub open spec fn wants_readable(self) -> bool {
        self is Readable || self is ReadableAndWritable
    }

    /// Waiting for this readiness includes waiting until the socket is writable.
    pub open spec fn wants_writable(self) -> bool {
        self is Writable || self is ReadableAndWritable
    }
}

/// The readiness asked for covers exactly the blocked directions: nothing is
/// waited for when no direction is blocked, and otherwise the socket is
/// awaited readable exactly when inbound is blocked and writable exactly when
/// outbound is blocked.
pub proof fn lemma_interest_matches_directions(d: BlockDirections)
    ensures
        d.spec_interest() is None <==> d == BlockDirections::Neither,
        d.spec_interest() matches Some(i) ==> {
            &&& i.wants_readable() == d.blocks_inbound()
            &&& i.wants_writable() == d.blocks_outbound()
        },
{
}

/// The SSH session, a handle on libssh2 state that Verus sees only from outside.
#[verifier::external_type_specification]
#[verifier::external_body]
pub struct ExSession(ssh2::Session);

/// Reads the directions in which `session` was blocked by its last
/// operation, through `ssh2::Session::block_directions`, and names ssh2's
/// answer by the variant of the same meaning.  The answer depends on the
/// state of the session, so no clause states which variant comes back.
#[verifier::external_body]
pub(crate) fn read_block_directions(session: &ssh2::Session) -> BlockDirections {
    match session.block_directions() {
        ssh2::BlockDirections::None => BlockDirections::Neither,
        ssh2::BlockDirections::Inbound => BlockDirections::Inbound,
        ssh2::BlockDirections::Outbound => BlockDirections::Outbound,
        ssh2::BlockDirections::Both => BlockDirections::Both,
    }
}

} // verus!
