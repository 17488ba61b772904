//! Verified decision logic for driving non-blocking SSH operations from an
//! asynchronous runtime.
//!
//! A non-blocking SSH session answers an operation either with its result or
//! with "would block".  In the second case the session reports which way the
//! underlying socket was blocked, the caller waits for the matching socket
//! readiness, pauses briefly, and tries again.  The modules here hold those
//! decisions as small state machines; the runtime side performs each action
//! they ask for and feeds the outcome back as an event.

pub mod directions;
pub mod retry;
pub mod poll_pass;
