//! The process-wide running flag that gates the accept loop and every
//! connection worker.

use vstd::prelude::*;

verus! {

/// What a call to `stop` observed: either it delivered the shutdown signal,
/// or the server was already stopped and the call was a no-op to be logged.
#[derive(Clone, Copy, Debug, PartialEq, Eq)]
pub enum StopNotice {
    /// The flag was running and has now been cleared.
    Signalled,
    /// The flag was already clear; nothing changed.
    AlreadyStopped,
}

/// The lifecycle transition taken by `stop`, as a function of the flag it
/// found: the flag always ends up clear, and the notice says whether this
/// call was the one that cleared it.
pub open spec fn stop_transition(running: bool) -> (bool, StopNotice) {
    if running {
        (false, StopNotice::Signalled)
    } else {
        (false, StopNotice::AlreadyStopped)
    }
}

/// The server's running flag. It is created clear, set on start, and
/// cleared exactly once by however many calls to `stop` arrive.
///
/// This is the state machine of the flag; the process shares it between
/// the listener and the workers through an atomic boolean that mirrors
/// these transitions.
pub struct Lifecycle {
    /// Whether the server is currently accepting connections.
    pub running: bool,
}

impl Lifecycle {
    /// A fresh lifecycle: the server is constructed not running.
    pub fn new() -> (lc: Self)
        ensures
            !lc.running,
    {
        Lifecycle { running: false }
    }

    /// Entering the accept loop marks the server running.
    pub fn start(&mut self)
        ensures
            final(self).running,
    {
        self.running = true;
    }

    /// Signal shutdown. The flag is clear afterwards whatever it held;
    /// the notice is `Signalled` exactly when this call found it set.
    pub fn stop(&mut self) -> (notice: StopNotice)
        ensures
            (final(self).running, notice) == stop_transition(old(self).running),
            !final(self).running,
            notice is Signalled <==> old(self).running,
    {
        if self.running {
            self.running = false;
            StopNotice::Signalled
        } else {
            StopNotice::AlreadyStopped
        }
    }
}

/// Stopping is idempotent: after one `stop` the flag is clear, and a second
/// `stop` from that state changes nothing and reports `AlreadyStopped` — a
/// notice to log, not an error and not a second shutdown signal.
pub proof fn lemma_stop_idempotent(running: bool)
    ensures
        !stop_transition(running).0,
        stop_transition(stop_transition(running).0).0 == stop_transition(running).0,
        stop_transition(stop_transition(running).0).1 is AlreadyStopped,
{
}

} // verus!
