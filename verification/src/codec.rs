//! The message codec: envelopes to bytes and back.
//!
//! Writing never fails. Reading gives the whole envelope or
//! [`Error::MalformedMessage`]; there is no partial result. What was written
//! reads back as the envelope that was written. A field that an envelope
//! does not know is passed over, a group too; a group where the envelope
//! knows the tag is malformed.

use vstd::prelude::*;
use crate::error::Error;
use crate::message::{Schema, decode_spec, encode, encode_spec, lemma_round_trip, parse};
use crate::wcf::{Request, RequestView, Response, ResponseView};
use crate::wire::{Field, Payload};

verus! {

/// The bytes of a request.
pub fn encode_request(request: &Request) -> (bytes: Vec<u8>)
    ensures
        bytes@ == encode_spec::<Request>(request@),
        decode_spec::<Request>(bytes@) == Some(request@),
{
    encode(request)
}

/// The bytes of a response.
pub fn encode_response(response: &Response) -> (bytes: Vec<u8>)
    ensures
        bytes@ == encode_spec::<Response>(response@),
        decode_spec::<Response>(bytes@) == Some(response@),
{
    encode(response)
}

/// The request that `bytes` hold.
pub fn decode_request(bytes: &[u8]) -> (r: Result<Request, Error>)
    ensures
        match r {
            Ok(request) => decode_spec::<Request>(bytes@) == Some(request@),
            Err(e) => e == Error::MalformedMessage && decode_spec::<Request>(bytes@) is None,
        },
{
    match parse::<Request>(bytes) {
        Some(request) => Ok(request),
        None => Err(Error::MalformedMessage),
    }
}

/// The response that `bytes` hold.
pub fn decode_response(bytes: &[u8]) -> (r: Result<Response, Error>)
    ensures
        match r {
            Ok(response) => decode_spec::<Response>(bytes@) == Some(response@),
            Err(e) => e == Error::MalformedMessage && decode_spec::<Response>(bytes@) is None,
        },
{
    match parse::<Response>(bytes) {
        Some(response) => Ok(response),
        None => Err(Error::MalformedMessage),
    }
}

/// A group in a request: passed over under a tag that a request does not
/// know, and malformed under one that it knows.
pub proof fn lemma_request_passes_groups_over(acc: RequestView, tag: u32, group: Seq<u8>)
    ensures
        Request::absorb(acc, Field { tag, value: Payload::Group(group) }) == if 1 <= tag <= 13 {
            None
        } else {
            Some(acc)
        },
{
}

/// A group in a response: passed over under a tag that a response does not
/// know, and malformed under one that it knows.
pub proof fn lemma_response_passes_groups_over(acc: ResponseView, tag: u32, group: Seq<u8>)
    ensures
        Response::absorb(acc, Field { tag, value: Payload::Group(group) }) == if 1 <= tag <= 10 {
            None
        } else {
            Some(acc)
        },
{
}

/// Round trip of requests: the bytes of a request that can be written hold
/// that request.
pub proof fn lemma_request_round_trip(request: RequestView)
    requires
        Request::representable(request),
    ensures
        decode_spec::<Request>(encode_spec::<Request>(request)) == Some(request),
{
    lemma_round_trip::<Request>(request);
}

/// Round trip of responses: the bytes of a response that can be written hold
/// that response.
pub proof fn lemma_response_round_trip(response: ResponseView)
    requires
        Response::representable(response),
    ensures
        decode_spec::<Response>(encode_spec::<Response>(response)) == Some(response),
{
    lemma_round_trip::<Response>(response);
}

} // verus!
