//! The accept-loop policy: what the listener does with each poll of the
//! bound socket while the running flag holds.
//!
//! The shell owns the listener socket in non-blocking mode. Each loop
//! iteration it loads the running flag, polls `accept`, classifies the
//! outcome, and performs the action this module decides: spawn a worker
//! for the new connection, back off briefly when nothing is pending, log
//! and carry on after a failed accept, or leave the loop once the flag is
//! clear.

use vstd::prelude::*;

verus! {

/// How long the listener sleeps, in milliseconds, when a poll of the
/// socket found no pending connection.
pub const ACCEPT_BACKOFF_MILLIS: u64 = 100;

/// What one poll of the non-blocking `accept` produced.
#[derive(Clone, Copy, Debug, PartialEq, Eq)]
pub enum AcceptOutcome {
    /// A connection was accepted.
    Connection,
    /// No connection was pending: the accept would have blocked.
    WouldBlock,
    /// The accept failed with some other I/O error.
    Failed,
}

/// What the listener does next.
#[derive(Clone, Copy, Debug, PartialEq, Eq)]
pub enum ListenerAction {
    /// Log the new peer and spawn an independent worker that owns the
    /// accepted connection and observes the running flag read-only.
    SpawnWorker,
    /// Sleep for [`ACCEPT_BACKOFF_MILLIS`] so the loop can observe flag
    /// changes without spinning.
    Backoff,
    /// Log the accept error and keep the loop alive: one bad accept must
    /// not kill the listener.
    LogAndContinue,
    /// Leave the accept loop and return successfully. In-flight
    /// connections are not closed; stop is a signal, not a barrier.
    Shutdown,
}

/// The accept-loop step as a function of the running flag and the poll
/// outcome. A cleared flag shuts the loop down before any outcome is
/// acted on; otherwise the outcome alone decides.
pub open spec fn listener_transition(running: bool, outcome: AcceptOutcome) -> ListenerAction {
    if !running {
        ListenerAction::Shutdown
    } else {
        match outcome {
            AcceptOutcome::Connection => ListenerAction::SpawnWorker,
            AcceptOutcome::WouldBlock => ListenerAction::Backoff,
            AcceptOutcome::Failed => ListenerAction::LogAndContinue,
        }
    }
}

/// One step of the accept loop: from the running flag as just loaded and
/// the outcome of the poll, to the action the shell performs.
pub fn listener_step(running: bool, outcome: AcceptOutcome) -> (action: ListenerAction)
    ensures
        action == listener_transition(running, outcome),
{
    if !running {
        return ListenerAction::Shutdown;
    }
    match outcome {
        AcceptOutcome::Connection => ListenerAction::SpawnWorker,
        AcceptOutcome::WouldBlock => ListenerAction::Backoff,
        AcceptOutcome::Failed => ListenerAction::LogAndContinue,
    }
}

/// Once the running flag is clear, the listener accepts nothing further:
/// every poll outcome leads to shutdown, and in particular no worker is
/// ever spawned again. Connections already open are untouched by this
/// step — their workers run on until their own next check of the flag.
pub proof fn lemma_stopped_listener_spawns_nothing(outcome: AcceptOutcome)
    ensures
        listener_transition(false, outcome) is Shutdown,
        !(listener_transition(false, outcome) is SpawnWorker),
{
}

} // verus!
