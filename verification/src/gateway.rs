//! The envelope in which a gateway relays one advertisement: a JSON object
//! with the members `rssi`, `ts` and `data`, received on a topic that ends
//! in the address of the sensor.

use vstd::prelude::*;
use vstd::string::*;
use vstd::utf8::*;
use crate::error::DecodeError;
use crate::hex::is_hex_digit;
use crate::trusted::{
    bytes_contents,
    integer_member,
    json_document,
    json_integers,
    json_strings,
    parse_document,
    payload_bytes,
    string_member,
    text_of,
};

verus! {

/// Number of characters of an address written as six pairs of hexadecimal
/// digits with colons between them.
pub const MAC_LENGTH: usize = 17;

/// One relayed advertisement.
#[derive(Debug, Clone)]
pub struct RuuviGatewayMessage {
    /// Signal strength at the gateway in dBm.
    pub rssi: i16,
    /// Time of reception, as the gateway wrote it.
    pub ts: String,
    /// The advertisement in hexadecimal.
    pub data: String,
    /// Address of the sensor, taken from the topic.
    pub mac: String,
}

/// The mathematical value of a [`RuuviGatewayMessage`].
pub struct Envelope {
    pub rssi: int,
    pub ts: Seq<char>,
    pub data: Seq<char>,
    pub mac: Seq<char>,
}

impl View for RuuviGatewayMessage {
    type V = Envelope;

    open spec fn view(&self) -> Envelope {
        Envelope { rssi: self.rssi as int, ts: self.ts@, data: self.data@, mac: self.mac@ }
    }
}

/// What became of one message.
#[derive(Debug, Clone)]
pub enum GatewayMessageResult {
    /// The message held an envelope.
    Received(RuuviGatewayMessage),
    /// The message was dropped, for the reason given.
    Rejected(DecodeError),
}

/// The mathematical value of a [`GatewayMessageResult`].
pub enum GatewayOutcome {
    Received(Envelope),
    Rejected(DecodeError),
}

impl View for GatewayMessageResult {
    type V = GatewayOutcome;

    open spec fn view(&self) -> GatewayOutcome {
        match self {
            GatewayMessageResult::Received(message) => GatewayOutcome::Received(message@),
            GatewayMessageResult::Rejected(reason) => GatewayOutcome::Rejected(*reason),
        }
    }
}

/// `s` is an address: six pairs of hexadecimal digits, separated by colons.
pub open spec fn is_mac_text(s: Seq<char>) -> bool {
    &&& s.len() == MAC_LENGTH
    &&& forall|i: int|
        0 <= i < MAC_LENGTH ==> if i % 3 == 2 {
            #[trigger] s[i] == ':'
        } else {
            is_hex_digit(s[i])
        }
}

/// The last [`MAC_LENGTH`] characters of a topic that has that many.
pub open spec fn topic_tail(topic: Seq<char>) -> Seq<char> {
    topic.subrange(topic.len() - MAC_LENGTH, topic.len() as int)
}

/// The address under which a message on `topic` is filed: the end of the
/// topic where that is an address, and the whole topic otherwise.
pub open spec fn source_mac_of(topic: Seq<char>) -> Seq<char> {
    if topic.len() >= MAC_LENGTH && is_mac_text(topic_tail(topic)) {
        topic_tail(topic)
    } else {
        topic
    }
}

fn is_hex_char(c: char) -> (r: bool)
    ensures
        r == is_hex_digit(c),
{
    ('0' <= c && c <= '9') || ('a' <= c && c <= 'f') || ('A' <= c && c <= 'F')
}

/// Takes the address of the sensor from the topic a message came on. A
/// topic that does not end in an address is returned whole.
pub fn parse_source_mac(topic: &str) -> (mac: &str)
    ensures
        mac@ == source_mac_of(topic@),
{
    let n: usize = topic.unicode_len();
    if n < MAC_LENGTH {
        return topic;
    }
    let start: usize = n - MAC_LENGTH;
    let mut i: usize = 0;
    while i < MAC_LENGTH
        invariant
            n == topic@.len(),
            n >= MAC_LENGTH,
            start == n - MAC_LENGTH,
            i <= MAC_LENGTH,
            forall|k: int|
                0 <= k < i ==> if k % 3 == 2 {
                    #[trigger] topic_tail(topic@)[k] == ':'
                } else {
                    is_hex_digit(topic_tail(topic@)[k])
                },
        decreases MAC_LENGTH - i,
    {
        let c: char = topic.get_char(start + i);
        assert(c == topic_tail(topic@)[i as int]);
        let fits: bool = if i % 3 == 2 {
            c == ':'
        } else {
            is_hex_char(c)
        };
        if !fits {
            return topic;
        }
        i += 1;
    }
    topic.substring_char(start, n)
}

/// The member `key` of a map, if it has one.
pub open spec fn member<V>(members: Map<Seq<char>, V>, key: Seq<char>) -> Option<V> {
    if members.contains_key(key) {
        Some(members[key])
    } else {
        None
    }
}

/// The envelope made of the members of a JSON object and the topic: all
/// three members must be there, and `rssi` must fit 16 bits.
pub open spec fn members_outcome(
    rssi: Option<i64>,
    ts: Option<Seq<char>>,
    data: Option<Seq<char>>,
    topic: Seq<char>,
) -> GatewayOutcome {
    if rssi is Some && ts is Some && data is Some && i16::MIN <= rssi->Some_0 <= i16::MAX {
        GatewayOutcome::Received(
            Envelope {
                rssi: rssi->Some_0 as int,
                ts: ts->Some_0,
                data: data->Some_0,
                mac: source_mac_of(topic),
            },
        )
    } else {
        GatewayOutcome::Rejected(DecodeError::Structure)
    }
}

/// What a message text yields: the envelope made of the members `rssi`,
/// `ts` and `data` of the JSON object that the text is.
pub open spec fn text_outcome(text: Seq<char>, topic: Seq<char>) -> GatewayOutcome {
    match json_document(text) {
        Some(doc) => members_outcome(
            member(json_integers(doc), "rssi"@),
            member(json_strings(doc), "ts"@),
            member(json_strings(doc), "data"@),
            topic,
        ),
        None => GatewayOutcome::Rejected(DecodeError::Structure),
    }
}

/// What a message body yields.
pub open spec fn payload_outcome(payload: Seq<u8>, topic: Seq<char>) -> GatewayOutcome {
    if valid_utf8(payload) {
        text_outcome(decode_utf8(payload), topic)
    } else {
        GatewayOutcome::Rejected(DecodeError::Encoding)
    }
}

/// The characters of a text that may be missing.
pub open spec fn text_view(text: Option<String>) -> Option<Seq<char>> {
    match text {
        Some(s) => Some(s@),
        None => None,
    }
}

/// Makes the envelope of the members read from a message, or says that the
/// message does not have the structure of one.
pub fn envelope_from_members(
    rssi: Option<i64>,
    ts: Option<String>,
    data: Option<String>,
    topic: &str,
) -> (r: GatewayMessageResult)
    ensures
        r@ == members_outcome(rssi, text_view(ts), text_view(data), topic@),
{
    match (rssi, ts, data) {
        (Some(level), Some(ts), Some(data)) => {
            if level < -32768 || level > 32767 {
                GatewayMessageResult::Rejected(DecodeError::Structure)
            } else {
                GatewayMessageResult::Received(
                    RuuviGatewayMessage {
                        rssi: level as i16,
                        ts,
                        data,
                        mac: parse_source_mac(topic).to_owned(),
                    },
                )
            }
        },
        _ => GatewayMessageResult::Rejected(DecodeError::Structure),
    }
}

/// Reads the envelope from the text of a message received on `topic`.
pub fn parse_gateway_text(text: &str, topic: &str) -> (r: GatewayMessageResult)
    ensures
        r@ == text_outcome(text@, topic@),
{
    match parse_document(text) {
        Ok(doc) => {
            let rssi = integer_member(&doc, "rssi");
            let ts = string_member(&doc, "ts");
            let data = string_member(&doc, "data");
            envelope_from_members(rssi, ts, data, topic)
        },
        Err(_) => GatewayMessageResult::Rejected(DecodeError::Structure),
    }
}

/// Reads the envelope from the body of a message received on `topic`.
pub fn parse_gateway_payload(payload: &[u8], topic: &str) -> (r: GatewayMessageResult)
    ensures
        r@ == payload_outcome(payload@, topic@),
        !valid_utf8(payload@) ==> r@ == GatewayOutcome::Rejected(DecodeError::Encoding),
        valid_utf8(payload@) && json_document(decode_utf8(payload@)) is None ==> r@
            == GatewayOutcome::Rejected(DecodeError::Structure),
{
    match text_of(payload) {
        Some(text) => {
            proof {
                encode_utf8_decode_utf8(text@);
            }
            parse_gateway_text(text, topic)
        },
        None => GatewayMessageResult::Rejected(DecodeError::Encoding),
    }
}

/// Reads the envelope from a message as the bus hands it over.
pub fn parse_gateway_message(bytes: &bytes::Bytes, topic: String) -> (r: GatewayMessageResult)
    ensures
        r@ == payload_outcome(bytes_contents(*bytes), topic@),
{
    parse_gateway_payload(payload_bytes(bytes), topic.as_str())
}

} // verus!
