//! The envelope around every protocol message: who sent it, whom it is
//! for, and the payload.

use serde_json::Value;
use vstd::prelude::*;
use crate::mpc::utils::json::{
    as_unsigned, json_member, json_parsed, json_text, json_unsigned, member, parse_json, to_text,
};

verus! {

/// The fields `sender` and `receiver` of the JSON text `message`, each as
/// the unsigned integer it holds, or `None` where the field is missing or
/// holds anything else; `None` altogether where the text is not JSON.
pub open spec fn envelope_addressing(message: Seq<char>) -> Option<(Option<u64>, Option<u64>)> {
    match json_parsed(message) {
        Some(value) => Some(
            (
                json_unsigned(json_member(value, "sender"@)),
                json_unsigned(json_member(value, "receiver"@)),
            ),
        ),
        None => None,
    }
}

/// The field `body` of the JSON text `message`, written out as JSON text
/// again (`null` where there is none); `None` where the text is not JSON.
pub open spec fn envelope_body(message: Seq<char>) -> Option<Seq<char>> {
    match json_parsed(message) {
        Some(value) => Some(json_text(json_member(value, "body"@))),
        None => None,
    }
}

/// Reads who sent a parsed message and whom it is for.
pub fn addressing_of(value: &Value) -> (addressing: (Option<u64>, Option<u64>))
    ensures
        addressing == (
            json_unsigned(json_member(*value, "sender"@)),
            json_unsigned(json_member(*value, "receiver"@)),
        ),
{
    (as_unsigned(member(value, "sender")), as_unsigned(member(value, "receiver")))
}

/// Reads who sent a message and whom it is for.
pub fn read_addressing(message: &str) -> (addressing: Option<(Option<u64>, Option<u64>)>)
    ensures
        addressing == envelope_addressing(message@),
{
    match parse_json(message) {
        Some(value) => Some(addressing_of(&value)),
        None => None,
    }
}

/// A server identity as it is taken from a number on the wire: the low 16
/// bits.
pub open spec fn wire_identity(raw: u64) -> u16 {
    (raw % 65536) as u16
}

/// Takes a server identity from a number on the wire.
pub fn identity_from_wire(raw: u64) -> (id: u16)
    ensures
        id == wire_identity(raw),
{
    (raw % 65536) as u16
}

/// Why an inbound message could not be opened.
#[derive(Clone, Copy, Debug, PartialEq, Eq, Structural)]
pub enum EnvelopeError {
    /// The message is not JSON.
    NotJson,
    /// The message names no sender.
    InvalidSender,
}

impl EnvelopeError {
    /// The text that describes the error.
    pub open spec fn spec_message(self) -> Seq<char> {
        match self {
            EnvelopeError::NotJson => "parse message as JSON value"@,
            EnvelopeError::InvalidSender => "Invalid 'sender' field"@,
        }
    }

    /// The text that describes the error.
    pub fn message(&self) -> (text: &'static str)
        ensures
            text@ == self.spec_message(),
    {
        match self {
            EnvelopeError::NotJson => "parse message as JSON value",
            EnvelopeError::InvalidSender => "Invalid 'sender' field",
        }
    }
}

/// An opened envelope. The payload is kept as JSON text for the protocol
/// to read.
#[derive(Debug, PartialEq, Eq)]
pub struct Envelope {
    pub sender: u16,
    pub receiver: Option<u16>,
    pub body: String,
}

/// What opening a message yields for given fields: the message must be
/// JSON and must name its sender; the receiver is optional.
pub open spec fn opened(
    addressing: Option<(Option<u64>, Option<u64>)>,
    body: Option<Seq<char>>,
) -> Result<(u16, Option<u16>, Seq<char>), EnvelopeError> {
    match (addressing, body) {
        (Some((Some(sender), receiver)), Some(body)) => Ok(
            (
                wire_identity(sender),
                match receiver {
                    Some(r) => Some(wire_identity(r)),
                    None => None,
                },
                body,
            ),
        ),
        (Some((None, _)), Some(_)) => Err(EnvelopeError::InvalidSender),
        _ => Err(EnvelopeError::NotJson),
    }
}

/// Whether `result` is what `expected` describes.
pub open spec fn envelope_is(
    result: Result<Envelope, EnvelopeError>,
    expected: Result<(u16, Option<u16>, Seq<char>), EnvelopeError>,
) -> bool {
    match expected {
        Ok((sender, receiver, body)) => {
            &&& result is Ok
            &&& result->Ok_0.sender == sender
            &&& result->Ok_0.receiver == receiver
            &&& result->Ok_0.body@ == body
        },
        Err(e) => result is Err && result->Err_0 == e,
    }
}

/// Builds the envelope from the fields that were read from a message.
pub fn envelope_from_fields(
    addressing: Option<(Option<u64>, Option<u64>)>,
    body: Option<String>,
) -> (result: Result<Envelope, EnvelopeError>)
    ensures
        envelope_is(
            result,
            opened(
                addressing,
                match body {
                    Some(text) => Some(text@),
                    None => None,
                },
            ),
        ),
{
    let body = match body {
        Some(body) => body,
        None => {
            return Err(EnvelopeError::NotJson);
        },
    };
    match addressing {
        Some((Some(sender), receiver)) => {
            let receiver = match receiver {
                Some(r) => Some(identity_from_wire(r)),
                None => None,
            };
            Ok(Envelope { sender: identity_from_wire(sender), receiver, body })
        },
        Some((None, _)) => Err(EnvelopeError::InvalidSender),
        None => Err(EnvelopeError::NotJson),
    }
}

/// Opens an inbound message: reads sender, receiver and payload from its
/// JSON text.
pub fn decode_envelope(message: &str) -> (result: Result<Envelope, EnvelopeError>)
    ensures
        envelope_is(result, opened(envelope_addressing(message@), envelope_body(message@))),
{
    match parse_json(message) {
        Some(value) => {
            let addressing = addressing_of(&value);
            let body = to_text(member(&value, "body"));
            envelope_from_fields(Some(addressing), Some(body))
        },
        None => envelope_from_fields(None, None),
    }
}

} // verus!
