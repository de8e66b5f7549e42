use bytes::Bytes;
use ruuvi_telemetry::error::DecodeError;
use ruuvi_telemetry::hex::FormatError;
use ruuvi_telemetry::parser::{RuuviData, RuuviSink};
use ruuvi_telemetry::pipeline::{ingest_message, Ingest};
use ruuvi_telemetry::prometheus::RuuviPrometheusSink;

struct RecordingSink {
    calls: Vec<(String, RuuviData)>,
}

impl RuuviSink for RecordingSink {
    fn sink(&mut self, source_mac: &str, measurement: RuuviData) {
        self.calls.push((source_mac.to_string(), measurement));
    }
}

fn envelope(data: &str) -> Bytes {
    Bytes::from(format!("{{\"rssi\":-70,\"ts\":\"1652000000\",\"data\":\"{}\"}}", data))
}

fn topic() -> String {
    "ruuvi/AA:BB:CC:DD:EE:FF/11:22:33:44:55:66".to_string()
}

#[test]
fn measurement_reaches_the_sink_once() {
    let mut sink = RecordingSink { calls: Vec::new() };
    let body = envelope("0201061BFF99040512FC5394C37C0004FFFC040CAC364200CDCBB8334C884F");
    assert_eq!(ingest_message(&body, topic(), &mut sink), Ingest::Delivered);
    assert_eq!(sink.calls.len(), 1);
    assert_eq!(sink.calls[0].0, "11:22:33:44:55:66");
    assert_eq!(sink.calls[0].1.format, 5);
    assert_eq!(sink.calls[0].1.temperature, 24300);
    assert_eq!(sink.calls[0].1.pressure, 100044);
    assert_eq!(sink.calls[0].1.mac, [0xCB, 0xB8, 0x33, 0x4C, 0x88, 0x4F]);
}

#[test]
fn malformed_utf8_is_dropped_before_the_sink() {
    let mut sink = RecordingSink { calls: Vec::new() };
    let body = Bytes::from_static(&[0x80, 0x81]);
    let outcome = ingest_message(&body, topic(), &mut sink);
    assert_eq!(outcome, Ingest::Dropped(DecodeError::Encoding));
    assert!(sink.calls.is_empty());
    match outcome {
        Ingest::Dropped(reason) => assert_eq!(reason.label(), Some("utf8")),
        _ => unreachable!(),
    }
}

#[test]
fn malformed_json_is_dropped_before_the_sink() {
    let mut sink = RecordingSink { calls: Vec::new() };
    let body = Bytes::from_static(b"{\"rssi\":-70,");
    let outcome = ingest_message(&body, topic(), &mut sink);
    assert_eq!(outcome, Ingest::Dropped(DecodeError::Structure));
    assert!(sink.calls.is_empty());
    match outcome {
        Ingest::Dropped(reason) => assert_eq!(reason.label(), Some("json")),
        _ => unreachable!(),
    }
}

#[test]
fn advertisement_that_is_not_hexadecimal_is_dropped() {
    let mut sink = RecordingSink { calls: Vec::new() };
    assert_eq!(
        ingest_message(&envelope("020"), topic(), &mut sink),
        Ingest::NotHex(FormatError::OddLength)
    );
    assert_eq!(
        ingest_message(&envelope("02xx"), topic(), &mut sink),
        Ingest::NotHex(FormatError::InvalidDigit)
    );
    assert!(sink.calls.is_empty());
}

#[test]
fn refused_advertisements_are_dropped_with_their_reason() {
    let mut sink = RecordingSink { calls: Vec::new() };
    assert_eq!(
        ingest_message(&envelope("02010611FE9904035D1929C6670029FFEA041B0B6B"), topic(), &mut sink),
        Ingest::Dropped(DecodeError::FramingRejected)
    );
    assert_eq!(
        ingest_message(&envelope("02010611FF9904095D1929C6670029FFEA041B0B6B"), topic(), &mut sink),
        Ingest::Dropped(DecodeError::UnsupportedVersion)
    );
    assert_eq!(
        ingest_message(&envelope("02010611FF9904035D1929C6670029FFEA041B"), topic(), &mut sink),
        Ingest::Dropped(DecodeError::TruncatedPayload)
    );
    assert_eq!(
        ingest_message(&envelope(""), topic(), &mut sink),
        Ingest::Dropped(DecodeError::TruncatedPayload)
    );
    assert!(sink.calls.is_empty());
}

#[test]
fn collected_samples_follow_the_messages() {
    let mut sink = RuuviPrometheusSink::new();
    let first = envelope("02010611FF9904035D1929C6670029FFEA041B0B6B");
    let second = envelope("0201061BFF99040512FC5394C37C0004FFFC040CAC364200CDCBB8334C884F");
    assert_eq!(ingest_message(&first, topic(), &mut sink), Ingest::Delivered);
    assert_eq!(
        ingest_message(&Bytes::from_static(b"[]"), topic(), &mut sink),
        Ingest::Dropped(DecodeError::Structure)
    );
    assert_eq!(ingest_message(&second, "ruuvi/kitchen".to_string(), &mut sink), Ingest::Delivered);
    let samples = sink.take_pending();
    assert_eq!(samples.len(), 2);
    assert_eq!(samples[0].mac, "11:22:33:44:55:66");
    assert_eq!(samples[0].temperature, 25410);
    assert_eq!(samples[1].mac, "ruuvi/kitchen");
    assert_eq!(samples[1].temperature, 24300);
}
