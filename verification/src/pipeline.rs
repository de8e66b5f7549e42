//! The way of one message from the bus to the sink.

use vstd::prelude::*;
use vstd::utf8::*;
use crate::error::DecodeError;
use crate::gateway::{parse_gateway_message, payload_outcome, GatewayMessageResult, GatewayOutcome};
use crate::hex::{decode_hex, hex_decoded, is_hex_string, FormatError};
use crate::trusted::{bytes_contents, json_document};
use crate::parser::{advertisement_outcome, decode_advertisement, Reading, RuuviSink};

verus! {

/// What became of one message.
#[derive(Debug, Clone, Copy, PartialEq, Eq, Structural)]
pub enum Ingest {
    /// The measurement in the message was handed to the sink.
    Delivered,
    /// The message was dropped: the envelope or the advertisement in it was
    /// refused for the reason given.
    Dropped(DecodeError),
    /// The message was dropped: the advertisement in the envelope is not
    /// hexadecimal text.
    NotHex(FormatError),
}

/// What the advertisement in an envelope yields, given as the hexadecimal
/// text `data`.
pub open spec fn data_outcome(data: Seq<char>) -> Result<Reading, Ingest> {
    if !is_hex_string(data) {
        Err(
            Ingest::NotHex(
                if data.len() % 2 != 0 {
                    FormatError::OddLength
                } else {
                    FormatError::InvalidDigit
                },
            ),
        )
    } else {
        match advertisement_outcome(hex_decoded(data)) {
            Ok(reading) => Ok(reading),
            Err(reason) => Err(Ingest::Dropped(reason)),
        }
    }
}

/// What a message yields: the address and the measurement that go to the
/// sink, or the way in which the message is dropped.
pub open spec fn message_outcome(payload: Seq<u8>, topic: Seq<char>) -> Result<
    (Seq<char>, Reading),
    Ingest,
> {
    match payload_outcome(payload, topic) {
        GatewayOutcome::Rejected(reason) => Err(Ingest::Dropped(reason)),
        GatewayOutcome::Received(envelope) => match data_outcome(envelope.data) {
            Ok(reading) => Ok((envelope.mac, reading)),
            Err(dropped) => Err(dropped),
        },
    }
}

/// Takes one message from the bus through the envelope, the hexadecimal
/// text and the advertisement. A measurement is handed to `sink` once,
/// under the address taken from the topic; a message that is dropped, at
/// whatever step, leaves the sink as it was.
pub fn ingest_message<S: RuuviSink>(
    bytes: &bytes::Bytes,
    topic: String,
    sink: &mut S,
) -> (r: Ingest)
    ensures
        match message_outcome(bytes_contents(*bytes), topic@) {
            Ok((mac, reading)) => r == Ingest::Delivered && S::takes(
                old(sink),
                final(sink),
                mac,
                reading,
            ),
            Err(dropped) => r == dropped && *final(sink) == *old(sink),
        },
        !valid_utf8(bytes_contents(*bytes)) ==> r == Ingest::Dropped(DecodeError::Encoding)
            && *final(sink) == *old(sink),
        valid_utf8(bytes_contents(*bytes)) && json_document(decode_utf8(bytes_contents(*bytes)))
            is None ==> r == Ingest::Dropped(DecodeError::Structure)
            && *final(sink) == *old(sink),
{
    match parse_gateway_message(bytes, topic) {
        GatewayMessageResult::Rejected(reason) => Ingest::Dropped(reason),
        GatewayMessageResult::Received(message) => match decode_hex(message.data.as_str()) {
            Err(error) => Ingest::NotHex(error),
            Ok(buf) => match decode_advertisement(buf.as_slice()) {
                Err(reason) => Ingest::Dropped(reason),
                Ok(measurement) => {
                    sink.sink(message.mac.as_str(), measurement);
                    Ingest::Delivered
                },
            },
        },
    }
}

} // verus!
