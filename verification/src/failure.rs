//! The typed failures that every operation of this crate can end in.

use vstd::prelude::*;

verus! {

/// One of the three byte streams of a remote process.
#[derive(Clone, Copy, Debug, PartialEq, Eq, Structural)]
pub enum Stream {
    Stdin,
    Stdout,
    Stderr,
}

/// Why a handoff from the bootstrap session to the agent did not complete.
#[derive(Clone, Copy, Debug, PartialEq, Eq)]
pub enum Handshake {
    /// The agent exited cleanly but printed no line that reads as a session
    /// descriptor.
    MissingSessionData,
    /// The agent did not exit cleanly; `code` is its exit code where one was
    /// reported.
    AgentFailed { code: Option<i32> },
}

/// A condition inside this process that a single call cannot recover from.
#[derive(Clone, Copy, Debug, PartialEq, Eq, Structural)]
pub enum Fault {
    /// The wall clock could not be read when the handle generator was seeded.
    ClockUnavailable,
    /// A lock guarding a registry was found poisoned.
    LockPoisoned,
    /// A launch was told of an event that cannot occur in its phase.
    UnexpectedEvent,
    /// A launch was asked to register a session before it had one.
    LaunchIncomplete,
}

/// A typed failure returned to the immediate caller.
#[derive(Clone, Debug, PartialEq, Eq)]
pub enum Failure {
    /// The transport could not be reached.
    ConnectionError(String),
    /// Credentials or the host key were refused.
    AuthError(String),
    /// The agent ran, but the handoff to it did not complete.
    HandshakeFailure(Handshake),
    /// The operation did not finish within `millis` milliseconds.
    Timeout { millis: u64 },
    /// No process is registered under `id`.
    NotFound { id: usize },
    /// No session is registered under `id`.
    NotConnected { id: usize },
    /// The named stream of the process is already closed.
    BrokenPipe(Stream),
    /// The call met a fault inside this process.
    Internal(Fault),
}

} // verus!
