use protocol::codec::{decode, encode};
use protocol::errors::ExchangeError;
use protocol::exchange::{process_request, process_streams, EchoHandler, Handler};
use protocol::message::Message;

#[test]
fn echo_handler_repeats_request() {
    let handler = EchoHandler {};
    let request = Message::new("Hello, server!");
    let response = handler.handle(&request).unwrap();
    assert_eq!(response.content, "Hello, server!");
}

#[test]
fn echo_exchange_returns_request_bytes() {
    let handler = EchoHandler {};
    let request = Message::new("Hello, server!");
    let wire = encode(&request);
    let response_bytes = process_request(&handler, &wire).unwrap();
    assert_eq!(response_bytes, wire);
    let response = decode(&response_bytes).unwrap();
    assert_eq!(response.content, "Hello, server!");
}

#[test]
fn echo_exchange_empty_message() {
    let handler = EchoHandler {};
    let wire = encode(&Message::new(""));
    let response_bytes = process_request(&handler, &wire).unwrap();
    let response = decode(&response_bytes).unwrap();
    assert_eq!(response.content, "");
}

#[test]
fn malformed_request_is_rejected() {
    let handler = EchoHandler {};
    let wire = vec![0xFF, 0xFF, 0xFF, 0x01];
    let r = process_request(&handler, &wire);
    assert_eq!(r.unwrap_err(), ExchangeError::MalformedPayload);
}

#[test]
fn concurrent_streams_get_their_own_responses() {
    let handler = EchoHandler {};
    let first = encode(&Message::new("first payload"));
    let second = encode(&Message::new("second payload"));
    let results = process_streams(&handler, &vec![first.clone(), second.clone()]);
    assert_eq!(results.len(), 2);
    assert_eq!(results[0].as_ref().unwrap(), &first);
    assert_eq!(results[1].as_ref().unwrap(), &second);
    assert_ne!(first, second);
}

#[test]
fn decode_failure_on_one_stream_leaves_the_next_intact() {
    let handler = EchoHandler {};
    let bad = vec![0x12, 0x34];
    let good = encode(&Message::new("still fine"));
    let results = process_streams(&handler, &vec![bad, good.clone()]);
    assert_eq!(results.len(), 2);
    assert_eq!(results[0].as_ref().unwrap_err(), &ExchangeError::MalformedPayload);
    let response = decode(results[1].as_ref().unwrap()).unwrap();
    assert_eq!(response.content, "still fine");
}

#[test]
fn error_descriptions_are_fixed() {
    assert_eq!(ExchangeError::MalformedPayload.describe(), "malformed payload");
    assert_eq!(ExchangeError::StreamOpenFailed.describe(), "stream open failed");
    assert_eq!(ExchangeError::StreamWriteFailed.describe(), "stream write failed");
    assert_eq!(ExchangeError::HandlerFailure.describe(), "handler failure");
    assert_eq!(ExchangeError::ConnectionLost.describe(), "connection lost");
    assert_eq!(ExchangeError::ConnectionClosed.describe(), "connection closed");
    assert_eq!(ExchangeError::ConnectionError.describe(), "connection error");
}
