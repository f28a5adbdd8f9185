use echo_add_server::connection::add_with_wraparound;
use echo_add_server::connection::conn_step;
use echo_add_server::connection::Action;
use echo_add_server::connection::ConnEvent;
use echo_add_server::connection::ConnState;
use echo_add_server::envelope::ClientEnvelope;
use echo_add_server::envelope::ServerEnvelope;

fn frame(client: Option<ClientEnvelope>, echo: Option<&str>) -> ConnEvent {
    ConnEvent::Frame { client, echo: echo.map(String::from) }
}

#[test]
fn add_request_two_plus_three_yields_five() {
    let (state, acts) = conn_step(
        ConnState::Open,
        true,
        frame(Some(ClientEnvelope::AddRequest { a: 2, b: 3 }), None),
    );
    assert_eq!(state, ConnState::Open);
    assert_eq!(
        acts,
        vec![
            Action::SendServer(ServerEnvelope::AddResponse { result: 5 }),
            Action::LogDecodeFailure,
            Action::Drain,
        ]
    );
}

#[test]
fn add_request_negative_operands() {
    let (state, acts) = conn_step(
        ConnState::Open,
        true,
        frame(Some(ClientEnvelope::AddRequest { a: -7, b: 4 }), None),
    );
    assert_eq!(state, ConnState::Open);
    assert_eq!(
        acts[0],
        Action::SendServer(ServerEnvelope::AddResponse { result: -3 })
    );
}

#[test]
fn addition_wraps_around_on_overflow() {
    assert_eq!(add_with_wraparound(i32::MAX, 1), i32::MIN);
    assert_eq!(add_with_wraparound(i32::MIN, -1), i32::MAX);
    assert_eq!(add_with_wraparound(i32::MAX, i32::MAX), -2);
}

#[test]
fn echo_message_is_echoed_back_and_logged() {
    let (state, acts) = conn_step(ConnState::Open, true, frame(None, Some("hi")));
    assert_eq!(state, ConnState::Open);
    assert_eq!(
        acts,
        vec![
            Action::LogContent(String::from("hi")),
            Action::EchoReply(String::from("hi")),
            Action::Drain,
        ]
    );
}

#[test]
fn echo_content_comes_back_unchanged() {
    let content = "a longer payload, with punctuation: \u{263a}";
    let (_, acts) = conn_step(ConnState::Open, true, frame(None, Some(content)));
    match &acts[1] {
        Action::EchoReply(reply) => assert_eq!(reply, content),
        other => panic!("expected an echo reply, got {:?}", other),
    }
}

#[test]
fn session_of_addition_then_echo() {
    // One client on one connection: first an addition request, then an
    // echo message, each answered in arrival order by its own step.
    let (state, acts) = conn_step(
        ConnState::Open,
        true,
        frame(Some(ClientEnvelope::AddRequest { a: 2, b: 3 }), None),
    );
    assert_eq!(state, ConnState::Open);
    assert_eq!(
        acts[0],
        Action::SendServer(ServerEnvelope::AddResponse { result: 5 })
    );
    let (state, acts) = conn_step(state, true, frame(None, Some("hi")));
    assert_eq!(state, ConnState::Open);
    assert!(acts.contains(&Action::EchoReply(String::from("hi"))));
}

#[test]
fn unrecognized_bytes_get_silence_and_connection_stays_open() {
    let (state, acts) = conn_step(ConnState::Open, true, frame(None, None));
    assert_eq!(state, ConnState::Open);
    assert_eq!(acts, vec![Action::LogDecodeFailure, Action::Drain]);
    // The connection still serves a valid message afterwards.
    let (state, acts) = conn_step(state, true, frame(None, Some("still here")));
    assert_eq!(state, ConnState::Open);
    assert_eq!(acts[1], Action::EchoReply(String::from("still here")));
}

#[test]
fn client_envelope_echo_variant_is_not_answered() {
    let (state, acts) = conn_step(
        ConnState::Open,
        true,
        frame(Some(ClientEnvelope::Echo { content: String::from("inside") }), None),
    );
    assert_eq!(state, ConnState::Open);
    assert_eq!(acts, vec![Action::LogDecodeFailure, Action::Drain]);
}

#[test]
fn buffer_valid_under_both_schemas_triggers_both_paths() {
    let (state, acts) = conn_step(
        ConnState::Open,
        true,
        frame(Some(ClientEnvelope::AddRequest { a: 1, b: 2 }), Some("x")),
    );
    assert_eq!(state, ConnState::Open);
    assert_eq!(
        acts,
        vec![
            Action::SendServer(ServerEnvelope::AddResponse { result: 3 }),
            Action::LogContent(String::from("x")),
            Action::EchoReply(String::from("x")),
            Action::Drain,
        ]
    );
}

#[test]
fn peer_close_ends_only_that_worker() {
    // Two concurrently open connections, each its own state machine.
    let first = ConnState::Open;
    let second = ConnState::Open;
    let (first, acts) = conn_step(first, true, ConnEvent::PeerClosed);
    assert_eq!(first, ConnState::Closed);
    assert!(acts.is_empty());
    // The other connection remains fully functional.
    let (second, acts) = conn_step(second, true, frame(None, Some("alive")));
    assert_eq!(second, ConnState::Open);
    assert_eq!(acts[1], Action::EchoReply(String::from("alive")));
}

#[test]
fn read_failure_ends_worker() {
    let (state, acts) = conn_step(ConnState::Open, true, ConnEvent::ReadFailed);
    assert_eq!(state, ConnState::Closed);
    assert!(acts.is_empty());
}

#[test]
fn write_failure_ends_worker() {
    let (state, acts) = conn_step(ConnState::Open, true, ConnEvent::WriteFailed);
    assert_eq!(state, ConnState::Closed);
    assert!(acts.is_empty());
}

#[test]
fn cleared_flag_ends_worker_at_next_step() {
    let (state, acts) = conn_step(ConnState::Open, false, frame(None, Some("late")));
    assert_eq!(state, ConnState::Closed);
    assert!(acts.is_empty());
}

#[test]
fn closed_worker_stays_closed() {
    let (state, acts) = conn_step(ConnState::Closed, true, frame(None, Some("ghost")));
    assert_eq!(state, ConnState::Closed);
    assert!(acts.is_empty());
}
