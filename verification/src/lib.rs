//! Core logic of a small concurrent TCP server that answers two kinds of
//! requests: a numeric addition service and a text echo service.
//!
//! The crate holds the decision logic of the server — message dispatch, the
//! per-connection state machine, the accept-loop policy and the lifecycle
//! flag — as verified functions over plain values. The surrounding I/O (the
//! listener socket, the per-connection streams, the wire codec and the
//! worker threads) lives outside the library and drives these functions:
//! it reads and decodes a frame, hands the decoded values in, and performs
//! the actions that come back.

pub mod connection;
pub mod envelope;
pub mod lifecycle;
pub mod listener;
