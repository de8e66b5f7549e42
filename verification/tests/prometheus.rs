use ruuvi_telemetry::parser::{RuuviData, RuuviSink};
use ruuvi_telemetry::prometheus::RuuviPrometheusSink;

#[test]
fn test_prometheus_sink() {
    let mut measurement = RuuviData::new();
    measurement.temperature = 21000;

    let mut sink = RuuviPrometheusSink::new();
    sink.sink("11:22:33:44:55:66", measurement);

    let samples = sink.take_pending();
    assert_eq!(samples.len(), 1);
    assert_eq!(samples[0].mac, "11:22:33:44:55:66");
    assert_eq!(21.0, samples[0].temperature as f64 / 1000.0);
}

#[test]
fn samples_come_out_in_order_and_once() {
    let mut sink = RuuviPrometheusSink::default();
    assert_eq!(sink.pending_len(), 0);
    let mut first = RuuviData::new();
    first.temperature = -1500;
    let mut second = RuuviData::new();
    second.temperature = 24300;
    sink.sink("a", first);
    sink.sink("b", second);
    assert_eq!(sink.pending_len(), 2);

    let samples = sink.take_pending();
    assert_eq!(samples.len(), 2);
    assert_eq!(samples[0].mac, "a");
    assert_eq!(samples[0].temperature, -1500);
    assert_eq!(samples[1].mac, "b");
    assert_eq!(samples[1].temperature, 24300);

    assert_eq!(sink.pending_len(), 0);
    assert!(sink.take_pending().is_empty());
}
