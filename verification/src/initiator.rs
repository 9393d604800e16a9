//! The initiator's side of an exchange, as a state machine.
//!
//! The embedding program owns the transport: it opens the stream,
//! writes, half-closes and reads. After each transport operation it
//! hands the observed event to [`Initiator::step`], which decides the
//! next action. One exchange walks: open the stream, write the encoded
//! request and half-close, read until end-of-stream accumulating bytes,
//! decode the response. Every transport failure maps to the error the
//! phase owes, and a dropped connection fails the exchange promptly in
//! every phase.

use vstd::prelude::*;
use crate::codec::{decode, decode_spec, encode, encode_spec};
use crate::errors::ExchangeError;
use crate::message::Message;

verus! {

/// Where one exchange stands on the initiator's side.
pub enum Initiator {
    /// Waiting for the transport to open a bidirectional stream.
    Opening { request: Vec<u8> },
    /// Waiting for the request bytes to be written and the send half
    /// closed.
    Sending { request: Vec<u8> },
    /// Reading the receive half until end-of-stream, accumulating
    /// bytes.
    Receiving { received: Vec<u8> },
    /// The exchange succeeded with this response.
    Finished { response: Message },
    /// The exchange failed; terminal for this stream.
    Failed { error: ExchangeError },
}

/// What the transport reported back to the initiator.
pub enum TransportEvent {
    /// A bidirectional stream was opened.
    StreamOpened,
    /// The transport refused to open a stream.
    StreamOpenRefused,
    /// The request bytes were written and the send half was closed.
    WriteCompleted,
    /// The transport refused the write or the half-close.
    WriteRefused,
    /// Some bytes arrived on the receive half.
    DataReceived { chunk: Vec<u8> },
    /// The peer signalled no-more-data on its send half.
    EndOfStream,
    /// The connection dropped.
    ConnectionDropped,
}

/// What the initiator asks the transport to do next.
pub enum InitiatorAction {
    /// Open one bidirectional stream on the connection.
    OpenStream,
    /// Write these bytes fully on the send half, then half-close it.
    WriteAndFinish { bytes: Vec<u8> },
    /// Read more bytes from the receive half.
    Read,
    /// Nothing: the exchange is over.
    Stop,
}

/// The mathematical model of an initiator state.
pub enum InitiatorModel {
    Opening { request: Seq<u8> },
    Sending { request: Seq<u8> },
    Receiving { received: Seq<u8> },
    Finished { response: Seq<char> },
    Failed { error: ExchangeError },
}

/// The mathematical model of a transport event.
pub enum EventModel {
    StreamOpened,
    StreamOpenRefused,
    WriteCompleted,
    WriteRefused,
    DataReceived { chunk: Seq<u8> },
    EndOfStream,
    ConnectionDropped,
}

/// The mathematical model of an action.
pub enum ActionModel {
    OpenStream,
    WriteAndFinish { bytes: Seq<u8> },
    Read,
    Stop,
}

impl View for Initiator {
    type V = InitiatorModel;

    open spec fn view(&self) -> InitiatorModel {
        match self {
            Initiator::Opening { request } => InitiatorModel::Opening { request: request@ },
            Initiator::Sending { request } => InitiatorModel::Sending { request: request@ },
            Initiator::Receiving { received } => InitiatorModel::Receiving { received: received@ },
            Initiator::Finished { response } => InitiatorModel::Finished { response: response@ },
            Initiator::Failed { error } => InitiatorModel::Failed { error: *error },
        }
    }
}

impl View for TransportEvent {
    type V = EventModel;

    open spec fn view(&self) -> EventModel {
        match self {
            TransportEvent::StreamOpened => EventModel::StreamOpened,
            TransportEvent::StreamOpenRefused => EventModel::StreamOpenRefused,
            TransportEvent::WriteCompleted => EventModel::WriteCompleted,
            TransportEvent::WriteRefused => EventModel::WriteRefused,
            TransportEvent::DataReceived { chunk } => EventModel::DataReceived { chunk: chunk@ },
            TransportEvent::EndOfStream => EventModel::EndOfStream,
            TransportEvent::ConnectionDropped => EventModel::ConnectionDropped,
        }
    }
}

impl View for InitiatorAction {
    type V = ActionModel;

    open spec fn view(&self) -> ActionModel {
        match self {
            InitiatorAction::OpenStream => ActionModel::OpenStream,
            InitiatorAction::WriteAndFinish { bytes } => ActionModel::WriteAndFinish {
                bytes: bytes@,
            },
            InitiatorAction::Read => ActionModel::Read,
            InitiatorAction::Stop => ActionModel::Stop,
        }
    }
}

/// Whether a state is terminal: the exchange has its outcome and asks
/// nothing more of the transport.
pub open spec fn is_terminal(s: InitiatorModel) -> bool {
    s is Finished || s is Failed
}

/// The transition relation of one exchange. A dropped connection fails
/// a running exchange with `ConnectionLost`; an event that the phase
/// cannot expect of a conforming transport is treated as
/// `ConnectionError`; a terminal state absorbs every event.
pub open spec fn initiator_step(s: InitiatorModel, e: EventModel) -> (InitiatorModel, ActionModel) {
    if is_terminal(s) {
        (s, ActionModel::Stop)
    } else {
        match (s, e) {
            (InitiatorModel::Opening { request }, EventModel::StreamOpened) => (
                InitiatorModel::Sending { request },
                ActionModel::WriteAndFinish { bytes: request },
            ),
            (InitiatorModel::Opening { .. }, EventModel::StreamOpenRefused) => (
                InitiatorModel::Failed { error: ExchangeError::StreamOpenFailed },
                ActionModel::Stop,
            ),
            (InitiatorModel::Sending { .. }, EventModel::WriteCompleted) => (
                InitiatorModel::Receiving { received: Seq::empty() },
                ActionModel::Read,
            ),
            (InitiatorModel::Sending { .. }, EventModel::WriteRefused) => (
                InitiatorModel::Failed { error: ExchangeError::StreamWriteFailed },
                ActionModel::Stop,
            ),
            (InitiatorModel::Receiving { received }, EventModel::DataReceived { chunk }) => (
                InitiatorModel::Receiving { received: received + chunk },
                ActionModel::Read,
            ),
            (InitiatorModel::Receiving { received }, EventModel::EndOfStream) => (
                match decode_spec(received) {
                    Some(response) => InitiatorModel::Finished { response },
                    None => InitiatorModel::Failed { error: ExchangeError::MalformedPayload },
                },
                ActionModel::Stop,
            ),
            (_, EventModel::ConnectionDropped) => (
                InitiatorModel::Failed { error: ExchangeError::ConnectionLost },
                ActionModel::Stop,
            ),
            (_, _) => (
                InitiatorModel::Failed { error: ExchangeError::ConnectionError },
                ActionModel::Stop,
            ),
        }
    }
}

impl Initiator {
    /// Starts one exchange for the given request. The bytes the
    /// exchange will carry are exactly the encoding of the request, and
    /// the first action is to open one bidirectional stream on the
    /// connection.
    pub fn begin(request: &Message) -> (r: (Initiator, InitiatorAction))
        ensures
            r.0@ == (InitiatorModel::Opening { request: encode_spec(request@) }),
            r.1@ == ActionModel::OpenStream,
    {
        (Initiator::Opening { request: encode(request) }, InitiatorAction::OpenStream)
    }

    /// Advances the exchange by one observed transport event, exactly
    /// as the transition relation says.
    pub fn step(self, event: TransportEvent) -> (r: (Initiator, InitiatorAction))
        ensures
            (r.0@, r.1@) == initiator_step(self@, event@),
    {
        match (self, event) {
            (Initiator::Opening { request }, TransportEvent::StreamOpened) => {
                let bytes = clone_bytes(&request);
                (Initiator::Sending { request }, InitiatorAction::WriteAndFinish { bytes })
            },
            (Initiator::Opening { .. }, TransportEvent::StreamOpenRefused) => (
                Initiator::Failed { error: ExchangeError::StreamOpenFailed },
                InitiatorAction::Stop,
            ),
            (Initiator::Sending { .. }, TransportEvent::WriteCompleted) => (
                Initiator::Receiving { received: Vec::new() },
                InitiatorAction::Read,
            ),
            (Initiator::Sending { .. }, TransportEvent::WriteRefused) => (
                Initiator::Failed { error: ExchangeError::StreamWriteFailed },
                InitiatorAction::Stop,
            ),
            (Initiator::Receiving { mut received }, TransportEvent::DataReceived { chunk }) => {
                let mut tail = chunk;
                received.append(&mut tail);
                (Initiator::Receiving { received }, InitiatorAction::Read)
            },
            (Initiator::Receiving { received }, TransportEvent::EndOfStream) => {
                match decode(&received) {
                    Ok(response) => (Initiator::Finished { response }, InitiatorAction::Stop),
                    Err(_) => (
                        Initiator::Failed { error: ExchangeError::MalformedPayload },
                        InitiatorAction::Stop,
                    ),
                }
            },
            (s, e) => {
                if matches!(s, Initiator::Finished { .. }) || matches!(s, Initiator::Failed { .. }) {
                    (s, InitiatorAction::Stop)
                } else if event_kind_is_drop(&e) {
                    (
                        Initiator::Failed { error: ExchangeError::ConnectionLost },
                        InitiatorAction::Stop,
                    )
                } else {
                    (
                        Initiator::Failed { error: ExchangeError::ConnectionError },
                        InitiatorAction::Stop,
                    )
                }
            },
        }
    }
}

/// Whether the event reports a dropped connection.
fn event_kind_is_drop(event: &TransportEvent) -> (r: bool)
    ensures
        r == (event@ is ConnectionDropped),
{
    matches!(event, TransportEvent::ConnectionDropped)
}

/// Clones a byte vector.
fn clone_bytes(v: &Vec<u8>) -> (r: Vec<u8>)
    ensures
        r@ == v@,
{
    let mut out: Vec<u8> = Vec::new();
    let mut i: usize = 0;
    while i < v.len()
        invariant
            i <= v@.len(),
            out@ =~= v@.subrange(0, i as int),
        decreases v@.len() - i,
    {
        out.push(v[i]);
        i = i + 1;
    }
    proof {
        assert(out@ =~= v@);
    }
    out
}

/// Connection-closure propagation: however far a running exchange has
/// come, a dropped connection fails it with `ConnectionLost` at once,
/// rather than leaving it waiting.
pub proof fn lemma_connection_closure(s: InitiatorModel)
    requires
        !is_terminal(s),
    ensures
        initiator_step(s, EventModel::ConnectionDropped) == (
            InitiatorModel::Failed { error: ExchangeError::ConnectionLost },
            ActionModel::Stop,
        ),
{
}

/// Echo run: the full initiator walk against an echoing peer. Opening
/// sends exactly the encoded request, and reading the same bytes back
/// to end-of-stream finishes with a response equal to the request.
pub proof fn lemma_initiator_echo_run(m: Seq<char>)
    ensures
        ({
            let start = InitiatorModel::Opening { request: encode_spec(m) };
            let (sending, write) = initiator_step(start, EventModel::StreamOpened);
            let (receiving, first_read) = initiator_step(sending, EventModel::WriteCompleted);
            let (full, next_read) = initiator_step(
                receiving,
                EventModel::DataReceived { chunk: encode_spec(m) },
            );
            let (done, stop) = initiator_step(full, EventModel::EndOfStream);
            &&& write == (ActionModel::WriteAndFinish { bytes: encode_spec(m) })
            &&& first_read == ActionModel::Read
            &&& next_read == ActionModel::Read
            &&& done == (InitiatorModel::Finished { response: m })
            &&& stop == ActionModel::Stop
        }),
{
    crate::codec::lemma_round_trip(m);
    assert(Seq::<u8>::empty() + encode_spec(m) =~= encode_spec(m));
}

} // verus!
