//! The per-connection worker: a state machine that consumes one decode
//! event per read and says what to write, what to log, and whether the
//! connection goes on.
//!
//! The shell around the library owns the socket. Each loop iteration it
//! reads one chunk of bytes, tries to decode it independently as a client
//! envelope and as a standalone echo message — two trials against the same
//! buffer, not one discriminated parse — and hands the outcomes in as a
//! [`ConnEvent`]. The step function answers with the next state and the
//! actions to perform, in order.

use vstd::prelude::*;

use crate::envelope::{ClientEnvelope, ServerEnvelope};

verus! {

/// The size, in bytes, of the buffer each connection worker reads into.
/// The protocol has no length-prefix framing: one read is assumed to hold
/// at most one meaningful message, and anything beyond it is drained.
pub const READ_BUFFER_LEN: usize = 512;

/// The two logical states of a connection worker: still serving, or done.
#[derive(Clone, Copy, Debug, PartialEq, Eq)]
pub enum ConnState {
    /// The worker keeps reading frames from this connection.
    Open,
    /// The worker terminates; the stream is released. Fatal only to this
    /// connection, never to the server.
    Closed,
}

/// What one read of the connection produced, after the decode trials.
#[derive(Debug, PartialEq, Eq)]
pub enum ConnEvent {
    /// The read itself failed with an I/O error.
    ReadFailed,
    /// The read returned zero bytes: the peer closed the connection.
    PeerClosed,
    /// The read produced bytes; both decode trials ran on the same buffer.
    /// `client` is the buffer decoded as a client envelope, if it decoded;
    /// `echo` is the content of the buffer decoded as a standalone echo
    /// message, if it decoded.
    Frame { client: Option<ClientEnvelope>, echo: Option<String> },
    /// Writing a response during the previous step failed.
    WriteFailed,
}

/// One side effect the shell must perform, in the order given.
#[derive(Debug, PartialEq, Eq)]
pub enum Action {
    /// Encode this server envelope and write it to the connection.
    SendServer(ServerEnvelope),
    /// Record the received echo content in the log.
    LogContent(String),
    /// Encode a standalone echo message with this content, write it to the
    /// connection, and flush the stream so the reply leaves promptly.
    EchoReply(String),
    /// Record that the buffer did not decode as an echo message. Not an
    /// error for the connection: no response is sent and the worker
    /// continues.
    LogDecodeFailure,
    /// Switch the connection to non-blocking mode and read-and-discard
    /// until a read would block, then switch back: stray bytes beyond the
    /// one message this cycle handled must not corrupt the next read.
    Drain,
}

/// Addition answers with 32-bit wraparound: the exact sum, brought back
/// into `i32` range by adding or subtracting one full 32-bit span. The
/// overflow policy of the addition service is wraparound, by design.
pub open spec fn wrapped_sum(a: i32, b: i32) -> i32 {
    if a + b > i32::MAX {
        (a + b - 0x1_0000_0000) as i32
    } else if a + b < i32::MIN {
        (a + b + 0x1_0000_0000) as i32
    } else {
        (a + b) as i32
    }
}

/// The response owed to the client-envelope decode trial: an `AddRequest`
/// is answered with one `AddResponse` carrying the wraparound sum; any
/// other outcome — no decode, or an echo payload inside the client
/// envelope — is owed nothing on this path.
pub open spec fn add_actions(client: Option<ClientEnvelope>) -> Seq<Action> {
    match client {
        Some(ClientEnvelope::AddRequest { a, b }) => seq![
            Action::SendServer(ServerEnvelope::AddResponse { result: wrapped_sum(a, b) }),
        ],
        _ => Seq::<Action>::empty(),
    }
}

/// The response owed to the echo decode trial: a decoded content is logged
/// and echoed back unchanged; a failed decode is logged and nothing is
/// sent.
pub open spec fn echo_actions(echo: Option<String>) -> Seq<Action> {
    match echo {
        Some(content) => seq![Action::LogContent(content), Action::EchoReply(content)],
        None => seq![Action::LogDecodeFailure],
    }
}

/// Everything owed for one frame: both decode trials answered
/// independently, then the drain that realigns the stream for the next
/// read.
pub open spec fn frame_actions(client: Option<ClientEnvelope>, echo: Option<String>) -> Seq<
    Action,
> {
    add_actions(client) + echo_actions(echo) + seq![Action::Drain]
}

/// The connection state machine. A closed worker stays closed; a cleared
/// running flag closes the worker at its next step; an I/O failure or a
/// peer close ends the worker with nothing further to do; a frame keeps
/// the worker open and owes the frame's actions.
pub open spec fn conn_transition(state: ConnState, running: bool, event: ConnEvent) -> (
    ConnState,
    Seq<Action>,
) {
    if state is Closed || !running {
        (ConnState::Closed, Seq::<Action>::empty())
    } else {
        match event {
            ConnEvent::ReadFailed => (ConnState::Closed, Seq::<Action>::empty()),
            ConnEvent::PeerClosed => (ConnState::Closed, Seq::<Action>::empty()),
            ConnEvent::WriteFailed => (ConnState::Closed, Seq::<Action>::empty()),
            ConnEvent::Frame { client, echo } => (ConnState::Open, frame_actions(client, echo)),
        }
    }
}

/// The sum sent back for an addition request: 32-bit wraparound addition.
pub fn add_with_wraparound(a: i32, b: i32) -> (r: i32)
    ensures
        r == wrapped_sum(a, b),
{
    a.wrapping_add(b)
}

/// Answer one decoded frame: the actions owed for it, in order.
pub fn handle_frame(client: Option<ClientEnvelope>, echo: Option<String>) -> (acts: Vec<Action>)
    ensures
        acts@ == frame_actions(client, echo),
{
    let ghost requested = client;
    let ghost echoed = echo;
    let mut acts: Vec<Action> = Vec::new();
    match client {
        Some(ClientEnvelope::AddRequest { a, b }) => {
            acts.push(
                Action::SendServer(
                    ServerEnvelope::AddResponse { result: add_with_wraparound(a, b) },
                ),
            );
        },
        _ => {},
    }
    match echo {
        Some(content) => {
            acts.push(Action::LogContent(content.clone()));
            acts.push(Action::EchoReply(content));
        },
        None => {
            acts.push(Action::LogDecodeFailure);
        },
    }
    acts.push(Action::Drain);
    proof {
        assert(acts@ =~= frame_actions(requested, echoed));
    }
    acts
}

/// One step of a connection worker: from the current state, the running
/// flag as last observed, and the event the read produced, to the next
/// state and the actions the shell must perform before the next read.
pub fn conn_step(state: ConnState, running: bool, event: ConnEvent) -> (step: (
    ConnState,
    Vec<Action>,
))
    ensures
        step.0 == conn_transition(state, running, event).0,
        step.1@ == conn_transition(state, running, event).1,
{
    if !running {
        return (ConnState::Closed, Vec::new());
    }
    match state {
        ConnState::Closed => (ConnState::Closed, Vec::new()),
        ConnState::Open => {
            match event {
                ConnEvent::ReadFailed => (ConnState::Closed, Vec::new()),
                ConnEvent::PeerClosed => (ConnState::Closed, Vec::new()),
                ConnEvent::WriteFailed => (ConnState::Closed, Vec::new()),
                ConnEvent::Frame { client, echo } => (
                    ConnState::Open,
                    handle_frame(client, echo),
                ),
            }
        },
    }
}

/// An addition request is always answered on the connection it arrived on:
/// a frame whose client envelope decoded as `AddRequest { a, b }` keeps the
/// worker open, and the first action — before anything the echo trial owes —
/// sends exactly one server envelope, an `AddResponse` carrying the
/// wraparound sum; no later action of the step sends a server envelope.
/// Whenever the exact sum fits in 32 bits, that result is exactly `a + b`.
/// No other connection is involved: a step is a function of this
/// connection's own state and event alone.
pub proof fn lemma_add_request_answered(a: i32, b: i32, echo: Option<String>)
    ensures
        ({
            let step = conn_transition(
                ConnState::Open,
                true,
                (ConnEvent::Frame { client: Some(ClientEnvelope::AddRequest { a, b }), echo }),
            );
            &&& step.0 is Open
            &&& step.1.len() >= 1
            &&& step.1[0] == Action::SendServer(
                ServerEnvelope::AddResponse { result: wrapped_sum(a, b) },
            )
            &&& forall|i: int| 1 <= i < step.1.len() ==> !(step.1[i] is SendServer)
        }),
        i32::MIN <= a + b <= i32::MAX ==> wrapped_sum(a, b) == a + b,
{
    let step = conn_transition(
        ConnState::Open,
        true,
        (ConnEvent::Frame { client: Some(ClientEnvelope::AddRequest { a, b }), echo }),
    );
    let answer = Action::SendServer(ServerEnvelope::AddResponse { result: wrapped_sum(a, b) });
    match echo {
        Some(content) => {
            assert(step.1 =~= seq![
                answer,
                Action::LogContent(content),
                Action::EchoReply(content),
                Action::Drain,
            ]);
        },
        None => {
            assert(step.1 =~= seq![answer, Action::LogDecodeFailure, Action::Drain]);
        },
    }
}

/// An echo message is echoed back unchanged on the connection it arrived
/// on: a frame whose echo trial decoded content `content` keeps the worker
/// open, logs a record carrying that very content, then sends an echo
/// reply carrying the same content value — so the re-encoded reply is
/// byte-for-byte the message received — and ends by draining stray bytes.
pub proof fn lemma_echo_round_trip(client: Option<ClientEnvelope>, content: String)
    ensures
        ({
            let step = conn_transition(
                ConnState::Open,
                true,
                (ConnEvent::Frame { client, echo: Some(content) }),
            );
            &&& step.0 is Open
            &&& step.1.len() == add_actions(client).len() + 3
            &&& step.1[step.1.len() - 3] == Action::LogContent(content)
            &&& step.1[step.1.len() - 2] == Action::EchoReply(content)
            &&& step.1[step.1.len() - 1] == Action::Drain
        }),
{
}

/// A frame that decoded as neither an addition request nor an echo message
/// gets silence, not an error frame: the step sends nothing — no server
/// envelope and no echo reply — logs the decode failure, drains, and
/// leaves the connection open for subsequent valid messages.
pub proof fn lemma_unrecognized_frame_keeps_connection(client: Option<ClientEnvelope>)
    requires
        !(client matches Some(ClientEnvelope::AddRequest { .. })),
    ensures
        ({
            let step = conn_transition(
                ConnState::Open,
                true,
                (ConnEvent::Frame { client, echo: None }),
            );
            &&& step.0 is Open
            &&& step.1 =~= seq![Action::LogDecodeFailure, Action::Drain]
            &&& forall|i: int|
                0 <= i < step.1.len() ==> !(step.1[i] is SendServer) && !(step.1[i] is EchoReply)
        }),
{
}

/// A zero-byte read — the peer closed — terminates this worker cleanly:
/// the next state is closed and nothing further is written or logged
/// through the step. Only this connection is affected: the transition
/// takes no other connection's state as input, so concurrently open
/// connections keep their own machines running.
pub proof fn lemma_peer_close_ends_worker(running: bool)
    ensures
        conn_transition(ConnState::Open, running, ConnEvent::PeerClosed).0 is Closed,
        conn_transition(ConnState::Open, running, ConnEvent::PeerClosed).1 == Seq::<
            Action,
        >::empty(),
{
}

/// A pool of concurrently open connections, one worker state each, after
/// worker `k` — and only worker `k` — takes a step. Workers share nothing
/// but the read-only running flag, so a step of one is an update of one
/// entry.
pub open spec fn pool_step(
    pool: Seq<ConnState>,
    k: int,
    running: bool,
    event: ConnEvent,
) -> Seq<ConnState>
    recommends
        0 <= k < pool.len(),
{
    pool.update(k, conn_transition(pool[k], running, event).0)
}

/// A peer close terminates only the worker it arrived on: stepping worker
/// `k` of a pool on its peer's close leaves worker `k` closed and every
/// other worker's state untouched — concurrently open connections stay
/// open and fully functional.
pub proof fn lemma_peer_close_leaves_others_open(pool: Seq<ConnState>, k: int, running: bool)
    requires
        0 <= k < pool.len(),
    ensures
        pool_step(pool, k, running, ConnEvent::PeerClosed)[k] is Closed,
        forall|j: int|
            0 <= j < pool.len() && j != k ==> pool_step(
                pool,
                k,
                running,
                ConnEvent::PeerClosed,
            )[j] == pool[j],
{
}

/// A read or write failure is fatal to this connection alone: the worker
/// closes with no further actions, whatever the running flag holds.
pub proof fn lemma_io_failure_ends_worker(running: bool, event: ConnEvent)
    requires
        event is ReadFailed || event is WriteFailed,
    ensures
        conn_transition(ConnState::Open, running, event).0 is Closed,
        conn_transition(ConnState::Open, running, event).1 == Seq::<Action>::empty(),
{
}

/// Once the running flag is clear, every worker ends at its next step,
/// whatever it finds on the wire, and performs no further action.
pub proof fn lemma_shutdown_ends_worker(state: ConnState, event: ConnEvent)
    ensures
        conn_transition(state, false, event).0 is Closed,
        conn_transition(state, false, event).1 == Seq::<Action>::empty(),
{
}

} // verus!
