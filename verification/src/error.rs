//! Error values surfaced by the streaming layer.
//!
//! Every failure terminates the affected stream or request and reaches
//! the caller as one of these values; nothing here retries or swallows.

use vstd::prelude::*;

verus! {

/// A violation of one of the two streaming encodings.
#[derive(Clone, Copy, Debug, PartialEq, Eq, Structural)]
pub enum ProtocolError {
    /// The multiplexed byte stream ended mid-header or mid-payload.
    TruncatedFrame,
    /// A multiplex header carried a stream-type tag outside 0..=2.
    UnknownFrameKind,
    /// A newline-delimited line did not decode as a structured record.
    MalformedRecord,
}

/// Terminal failure of a request or stream session.
#[derive(Clone, Debug)]
pub enum ClientError {
    /// The transport was unreachable, reset, or timed out.
    Connection,
    /// The daemon answered with a non-success HTTP status; carries the
    /// status code and the daemon-supplied message.
    Daemon(u16, String),
    /// The byte stream violated the wire encoding.
    Protocol(ProtocolError),
    /// A request payload could not be encoded.
    Serialization,
}

} // verus!
