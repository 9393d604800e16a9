//! A verified request/response exchange protocol over a secured,
//! multiplexed, connection-oriented transport.
//!
//! The library covers the application-level logic of one exchange: the
//! wire codec for [`message::Message`], the responder's per-stream
//! processing, and the initiator's stream lifecycle. Transport setup
//! (connections, streams, certificates) is left to the embedding
//! program, which drives the state machines here with plain byte
//! values and transport events.

pub mod codec;
pub mod errors;
pub mod exchange;
pub mod initiator;
pub mod message;
