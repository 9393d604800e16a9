//! The responder's side of an exchange: turn the bytes of one request
//! stream into the bytes of its response, independently of every other
//! stream.

use vstd::prelude::*;
use crate::codec::{
    decode, decode_spec, encode, encode_spec, lemma_encode_injective, lemma_round_trip,
};
use crate::errors::ExchangeError;
use crate::message::Message;

verus! {

/// Produces a response message for each request message.
///
/// The embedding program supplies the implementation; the protocol only
/// requires that what `handle` returns is the function `response_spec`
/// of the request alone, so that concurrent exchanges cannot influence
/// one another. `None` stands for a business-logic failure on that
/// request.
pub trait Handler {
    /// The response the handler owes for a request, or `None` where it
    /// fails.
    spec fn response_spec(&self, request: Seq<char>) -> Option<Seq<char>>;

    /// Computes the response.
    fn handle(&self, request: &Message) -> (r: Option<Message>)
        ensures
            match r {
                Some(resp) => self.response_spec(request@) == Some(resp@),
                None => self.response_spec(request@) is None,
            },
    ;
}

/// The reference handler: the response repeats the request verbatim.
/// Pure, and it never fails.
pub struct EchoHandler {}

impl Handler for EchoHandler {
    open spec fn response_spec(&self, request: Seq<char>) -> Option<Seq<char>> {
        Some(request)
    }

    fn handle(&self, request: &Message) -> (r: Option<Message>)
        ensures
            match r {
                Some(resp) => self.response_spec(request@) == Some(resp@),
                None => self.response_spec(request@) is None,
            },
    {
        Some(request.clone())
    }
}

/// The outcome one stream's request bytes are owed: the encoded
/// response of the decoded request, or the stream-scoped error that
/// stops it. A function of the bytes and the handler alone.
pub open spec fn stream_outcome<H: Handler>(h: &H, bytes: Seq<u8>) -> Result<
    Seq<u8>,
    ExchangeError,
> {
    match decode_spec(bytes) {
        Some(request) => match h.response_spec(request) {
            Some(response) => Ok(encode_spec(response)),
            None => Err(ExchangeError::HandlerFailure),
        },
        None => Err(ExchangeError::MalformedPayload),
    }
}

/// The model of an executable per-stream result.
pub open spec fn outcome_view(r: Result<Vec<u8>, ExchangeError>) -> Result<
    Seq<u8>,
    ExchangeError,
> {
    match r {
        Ok(v) => Ok(v@),
        Err(e) => Err(e),
    }
}

/// Handles the request bytes of one accepted stream: decode, invoke the
/// handler, encode. Returns exactly the outcome the stream is owed;
/// the caller writes the bytes back and half-closes, or abandons the
/// one stream on an error.
pub fn process_request<H: Handler>(h: &H, bytes: &Vec<u8>) -> (r: Result<Vec<u8>, ExchangeError>)
    ensures
        outcome_view(r) == stream_outcome(h, bytes@),
{
    match decode(bytes) {
        Ok(request) => match h.handle(&request) {
            Some(response) => Ok(encode(&response)),
            None => Err(ExchangeError::HandlerFailure),
        },
        Err(_) => Err(ExchangeError::MalformedPayload),
    }
}

/// The outcomes a whole batch of streams is owed, stream by stream.
pub open spec fn outcomes_spec<H: Handler>(h: &H, requests: Seq<Seq<u8>>) -> Seq<
    Result<Seq<u8>, ExchangeError>,
> {
    Seq::new(requests.len(), |i: int| stream_outcome(h, requests[i]))
}

/// Handles a batch of accepted streams, each independently: every entry
/// of the result is the outcome of its own request bytes alone, so a
/// failure on one stream leaves every other stream's outcome unchanged.
pub fn process_streams<H: Handler>(h: &H, requests: &Vec<Vec<u8>>) -> (r: Vec<
    Result<Vec<u8>, ExchangeError>,
>)
    ensures
        r@.len() == requests@.len(),
        forall|i: int| 0 <= i < r@.len() ==> outcome_view(#[trigger] r@[i]) == stream_outcome(
            h,
            requests@[i]@,
        ),
{
    let n: usize = requests.len();
    let mut results: Vec<Result<Vec<u8>, ExchangeError>> = Vec::new();
    let mut i: usize = 0;
    while i < n
        invariant
            n == requests@.len(),
            i <= n,
            results@.len() == i,
            forall|k: int| 0 <= k < i ==> outcome_view(#[trigger] results@[k]) == stream_outcome(
                h,
                requests@[k]@,
            ),
        decreases n - i,
    {
        let outcome = process_request(h, &requests[i]);
        results.push(outcome);
        i = i + 1;
    }
    results
}

/// Echo correctness: with the echo handler, the stream that carries an
/// encoded request is owed exactly those bytes back, and the initiator
/// decodes them to the request itself.
pub proof fn lemma_echo_exchange(m: Seq<char>)
    ensures
        stream_outcome(&EchoHandler {  }, encode_spec(m)) == Ok::<Seq<u8>, ExchangeError>(
            encode_spec(m),
        ),
        decode_spec(encode_spec(m)) == Some(m),
{
    lemma_round_trip(m);
}

/// Stream isolation: two concurrent exchanges with distinct payloads
/// are owed distinct responses, each the echo of its own request, so
/// neither can receive the response intended for the other.
pub proof fn lemma_stream_isolation(m1: Seq<char>, m2: Seq<char>)
    requires
        m1 != m2,
    ensures
        stream_outcome(&EchoHandler {  }, encode_spec(m1)) == Ok::<Seq<u8>, ExchangeError>(
            encode_spec(m1),
        ),
        stream_outcome(&EchoHandler {  }, encode_spec(m2)) == Ok::<Seq<u8>, ExchangeError>(
            encode_spec(m2),
        ),
        encode_spec(m1) != encode_spec(m2),
{
    lemma_echo_exchange(m1);
    lemma_echo_exchange(m2);
    lemma_encode_injective(m1, m2);
}

/// Failure isolation: replacing the request of one stream in a batch —
/// by a malformed one, say — leaves the outcome owed to every other
/// stream unchanged.
pub proof fn lemma_failure_isolation<H: Handler>(
    h: &H,
    requests1: Seq<Seq<u8>>,
    requests2: Seq<Seq<u8>>,
    n: int,
)
    requires
        requests1.len() == requests2.len(),
        0 <= n < requests1.len(),
        forall|i: int| 0 <= i < requests1.len() && i != n ==> requests1[i] == requests2[i],
    ensures
        forall|i: int|
            0 <= i < requests1.len() && i != n ==> outcomes_spec(h, requests1)[i] == outcomes_spec(
                h,
                requests2,
            )[i],
{
}

} // verus!
