use protocol::codec::encode;
use protocol::errors::ExchangeError;
use protocol::initiator::{Initiator, InitiatorAction, TransportEvent};
use protocol::message::Message;

#[test]
fn full_exchange_against_echoing_peer() {
    let request = Message::new("Hello, server!");
    let wire = encode(&request);

    let (s, action) = Initiator::begin(&request);
    assert!(matches!(action, InitiatorAction::OpenStream));
    let (s, action) = s.step(TransportEvent::StreamOpened);
    match action {
        InitiatorAction::WriteAndFinish { bytes } => assert_eq!(bytes, wire),
        _ => panic!("expected a write after the stream opened"),
    }

    let (s, action) = s.step(TransportEvent::WriteCompleted);
    assert!(matches!(action, InitiatorAction::Read));

    // The echoing peer sends the same bytes back.
    let (s, action) = s.step(TransportEvent::DataReceived { chunk: wire });
    assert!(matches!(action, InitiatorAction::Read));

    let (s, action) = s.step(TransportEvent::EndOfStream);
    assert!(matches!(action, InitiatorAction::Stop));
    match s {
        Initiator::Finished { response } => assert_eq!(response.content, "Hello, server!"),
        _ => panic!("expected the exchange to finish"),
    }
}

#[test]
fn response_split_into_chunks_is_reassembled() {
    let request = Message::new("split me");
    let wire = encode(&request);
    let (head, tail) = wire.split_at(4);

    let (s, action) = Initiator::begin(&request);
    assert!(matches!(action, InitiatorAction::OpenStream));
    let (s, _) = s.step(TransportEvent::StreamOpened);
    let (s, _) = s.step(TransportEvent::WriteCompleted);
    let (s, _) = s.step(TransportEvent::DataReceived { chunk: head.to_vec() });
    let (s, _) = s.step(TransportEvent::DataReceived { chunk: tail.to_vec() });
    let (s, _) = s.step(TransportEvent::EndOfStream);
    match s {
        Initiator::Finished { response } => assert_eq!(response.content, "split me"),
        _ => panic!("expected the exchange to finish"),
    }
}

#[test]
fn connection_drop_mid_read_fails_with_connection_lost() {
    let request = Message::new("anyone there?");
    let (s, action) = Initiator::begin(&request);
    assert!(matches!(action, InitiatorAction::OpenStream));
    let (s, _) = s.step(TransportEvent::StreamOpened);
    let (s, _) = s.step(TransportEvent::WriteCompleted);
    let (s, action) = s.step(TransportEvent::ConnectionDropped);
    assert!(matches!(action, InitiatorAction::Stop));
    match s {
        Initiator::Failed { error } => assert_eq!(error, ExchangeError::ConnectionLost),
        _ => panic!("expected the exchange to fail"),
    }
}

#[test]
fn connection_drop_while_opening_fails_with_connection_lost() {
    let (s, _) = Initiator::begin(&Message::new("x"));
    let (s, _) = s.step(TransportEvent::ConnectionDropped);
    match s {
        Initiator::Failed { error } => assert_eq!(error, ExchangeError::ConnectionLost),
        _ => panic!("expected the exchange to fail"),
    }
}

#[test]
fn refused_stream_fails_with_stream_open_failed() {
    let (s, _) = Initiator::begin(&Message::new("x"));
    let (s, action) = s.step(TransportEvent::StreamOpenRefused);
    assert!(matches!(action, InitiatorAction::Stop));
    match s {
        Initiator::Failed { error } => assert_eq!(error, ExchangeError::StreamOpenFailed),
        _ => panic!("expected the exchange to fail"),
    }
}

#[test]
fn refused_write_fails_with_stream_write_failed() {
    let (s, _) = Initiator::begin(&Message::new("x"));
    let (s, _) = s.step(TransportEvent::StreamOpened);
    let (s, _) = s.step(TransportEvent::WriteRefused);
    match s {
        Initiator::Failed { error } => assert_eq!(error, ExchangeError::StreamWriteFailed),
        _ => panic!("expected the exchange to fail"),
    }
}

#[test]
fn malformed_response_fails_with_malformed_payload() {
    let (s, _) = Initiator::begin(&Message::new("x"));
    let (s, _) = s.step(TransportEvent::StreamOpened);
    let (s, _) = s.step(TransportEvent::WriteCompleted);
    let (s, _) = s.step(TransportEvent::DataReceived { chunk: vec![0xFF, 0xFF] });
    let (s, _) = s.step(TransportEvent::EndOfStream);
    match s {
        Initiator::Failed { error } => assert_eq!(error, ExchangeError::MalformedPayload),
        _ => panic!("expected the exchange to fail"),
    }
}

#[test]
fn event_out_of_phase_is_a_connection_error() {
    let (s, _) = Initiator::begin(&Message::new("x"));
    let (s, _) = s.step(TransportEvent::EndOfStream);
    match s {
        Initiator::Failed { error } => assert_eq!(error, ExchangeError::ConnectionError),
        _ => panic!("expected the exchange to fail"),
    }
}

#[test]
fn terminal_state_absorbs_further_events() {
    let (s, _) = Initiator::begin(&Message::new("x"));
    let (s, _) = s.step(TransportEvent::StreamOpenRefused);
    let (s, action) = s.step(TransportEvent::StreamOpened);
    assert!(matches!(action, InitiatorAction::Stop));
    match s {
        Initiator::Failed { error } => assert_eq!(error, ExchangeError::StreamOpenFailed),
        _ => panic!("expected the failure to stay"),
    }
}
