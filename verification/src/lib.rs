//! Decoding of RuuviTag sensor telemetry relayed by a Ruuvi gateway.
//!
//! A gateway message carries a JSON envelope whose `data` member is the
//! hex-encoded Bluetooth advertisement of one sensor. The modules follow the
//! way of one message: [`gateway`] reads the envelope, [`hex`] turns the
//! advertisement into bytes, [`parser`] validates the framing and decodes
//! the measurement, and [`prometheus`] collects what was decoded for export.
//! [`pipeline`] joins these steps, [`error`] names the reasons for which a
//! message is dropped, and [`trusted`] holds the contracts that are taken
//! on trust from the libraries underneath.

pub mod error;
pub mod gateway;
pub mod hex;
pub mod parser;
pub mod pipeline;
pub mod prometheus;
pub mod trusted;
