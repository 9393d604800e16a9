//! The error taxonomy of the exchange protocol.

use vstd::prelude::*;

verus! {

/// What can go wrong during an exchange.
///
/// Stream-scoped errors (`MalformedPayload`, `StreamOpenFailed`,
/// `StreamWriteFailed`, `HandlerFailure`) abandon one stream and never
/// escalate to the connection. Connection-scoped errors
/// (`ConnectionLost`, `ConnectionClosed`, `ConnectionError`) are
/// terminal for that connection only.
#[derive(Clone, Copy, Debug, PartialEq, Eq, Structural)]
pub enum ExchangeError {
    /// The received bytes do not match the wire encoding.
    MalformedPayload,
    /// The transport refused to open a new stream.
    StreamOpenFailed,
    /// The transport refused a write on an open stream.
    StreamWriteFailed,
    /// The handler could not produce a response for this request.
    HandlerFailure,
    /// The connection dropped in the middle of an exchange.
    ConnectionLost,
    /// The peer or the local side closed the connection; expected and terminal.
    ConnectionClosed,
    /// The connection failed in an unexpected way; terminal.
    ConnectionError,
}

impl ExchangeError {
    /// A short, fixed description of the error, for reporting by the
    /// embedding program.
    pub fn describe(&self) -> &'static str {
        match self {
            ExchangeError::MalformedPayload => "malformed payload",
            ExchangeError::StreamOpenFailed => "stream open failed",
            ExchangeError::StreamWriteFailed => "stream write failed",
            ExchangeError::HandlerFailure => "handler failure",
            ExchangeError::ConnectionLost => "connection lost",
            ExchangeError::ConnectionClosed => "connection closed",
            ExchangeError::ConnectionError => "connection error",
        }
    }
}

} // verus!
