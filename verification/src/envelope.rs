//! The two wire envelopes, as plain decoded values.
//!
//! The binary wire format itself belongs to the codec collaborator outside
//! the library: it decodes raw bytes into these values and encodes them
//! back. Each envelope is a tagged union with exactly one active variant.

use vstd::prelude::*;

verus! {

/// A client-to-server envelope: either a request to add two 32-bit
/// integers, or an echo message carrying a text payload.
#[derive(Debug, PartialEq, Eq)]
pub enum ClientEnvelope {
    /// Ask the server for the sum of `a` and `b`.
    AddRequest { a: i32, b: i32 },
    /// An echo payload carried inside the client envelope. The dispatch
    /// logic answers only the standalone echo frame, so this variant is
    /// received and ignored.
    Echo { content: String },
}

/// A server-to-client envelope: either the answer to an addition request,
/// or an echo message.
#[derive(Debug, PartialEq, Eq)]
pub enum ServerEnvelope {
    /// The sum computed for an `AddRequest`.
    AddResponse { result: i32 },
    /// An echo payload carried inside the server envelope.
    Echo { content: String },
}

} // verus!
