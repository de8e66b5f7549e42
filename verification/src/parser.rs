//! Decoding of the Bluetooth advertisement of a RuuviTag: the framing of
//! the manufacturer-specific data, and the two payload layouts, data format
//! 3 (RAWv1) and data format 5 (RAWv2).
//!
//! Measurements are held as integers in the smallest unit that both layouts
//! can express, so that decoding is exact.

use vstd::prelude::*;
use vstd::slice::slice_subrange;
use crate::error::DecodeError;
use crate::hex::{decode_hex, hex_decoded, is_hex_string};

verus! {

/// Number of payload bytes of data format 3, counted from the format byte.
pub const V3_LENGTH: usize = 14;

/// Number of payload bytes of data format 5, counted from the format byte.
pub const V5_LENGTH: usize = 24;

/// Offset of the format byte within an advertisement.
pub const PAYLOAD_OFFSET: usize = 7;

/// One set of readings of a sensor.
#[derive(Debug, Clone, Copy, PartialEq, Eq)]
pub struct RuuviData {
    /// Data format of the payload the readings came from: 3 or 5.
    pub format: u8,
    /// Temperature in thousandths of a degree Celsius.
    pub temperature: i32,
    /// Absolute air pressure in pascal.
    pub pressure: u32,
    /// Relative humidity in ten-thousandths of a percent.
    pub humidity: u32,
    /// Acceleration along the x axis in thousandths of g.
    pub acceleration_x: i16,
    /// Acceleration along the y axis in thousandths of g.
    pub acceleration_y: i16,
    /// Acceleration along the z axis in thousandths of g.
    pub acceleration_z: i16,
    /// Transmit power in dBm; 0 in format 3, which does not carry it.
    pub tx_power: i16,
    /// Battery voltage in millivolts.
    pub voltage: u16,
    /// Movement counter; 0 in format 3.
    pub movement: u8,
    /// Measurement sequence number; 0 in format 3.
    pub measurement_sequence: u32,
    /// Hardware address of the sensor as the payload gives it; all zero
    /// in format 3.
    pub mac: [u8; 6],
}

/// The mathematical value of a [`RuuviData`], in the same units.
pub struct Reading {
    pub format: int,
    pub temperature: int,
    pub pressure: int,
    pub humidity: int,
    pub acceleration_x: int,
    pub acceleration_y: int,
    pub acceleration_z: int,
    pub tx_power: int,
    pub voltage: int,
    pub movement: int,
    pub measurement_sequence: int,
    pub mac: Seq<u8>,
}

impl View for RuuviData {
    type V = Reading;

    open spec fn view(&self) -> Reading {
        Reading {
            format: self.format as int,
            temperature: self.temperature as int,
            pressure: self.pressure as int,
            humidity: self.humidity as int,
            acceleration_x: self.acceleration_x as int,
            acceleration_y: self.acceleration_y as int,
            acceleration_z: self.acceleration_z as int,
            tx_power: self.tx_power as int,
            voltage: self.voltage as int,
            movement: self.movement as int,
            measurement_sequence: self.measurement_sequence as int,
            mac: self.mac@,
        }
    }
}

/// The reading in which every field is zero.
pub open spec fn zero_reading() -> Reading {
    Reading {
        format: 0,
        temperature: 0,
        pressure: 0,
        humidity: 0,
        acceleration_x: 0,
        acceleration_y: 0,
        acceleration_z: 0,
        tx_power: 0,
        voltage: 0,
        movement: 0,
        measurement_sequence: 0,
        mac: Seq::new(6, |i: int| 0u8),
    }
}

impl Default for RuuviData {
    fn default() -> (data: Self)
        ensures
            data@ == zero_reading(),
    {
        let data = RuuviData {
            format: 0,
            temperature: 0,
            pressure: 0,
            humidity: 0,
            acceleration_x: 0,
            acceleration_y: 0,
            acceleration_z: 0,
            tx_power: 0,
            voltage: 0,
            movement: 0,
            measurement_sequence: 0,
            mac: [0u8; 6],
        };
        proof {
            assert(data.mac@ =~= zero_reading().mac);
        }
        data
    }
}

impl RuuviData {
    /// A reading with every field zero.
    pub fn new() -> (data: Self)
        ensures
            data@ == zero_reading(),
    {
        Self::default()
    }
}

/// The unsigned 16-bit number whose bytes are `hi` and `lo`, in network order.
pub open spec fn be_u16(hi: u8, lo: u8) -> int {
    hi as int * 256 + lo as int
}

/// The two's-complement 16-bit number whose bytes are `hi` and `lo`, in
/// network order.
pub open spec fn be_i16(hi: u8, lo: u8) -> int {
    if hi >= 128 {
        be_u16(hi, lo) - 65536
    } else {
        be_u16(hi, lo)
    }
}

/// Temperature of data format 3: the low seven bits of `whole` are degrees,
/// `fraction` is hundredths of a degree, and the top bit of `whole` negates
/// the sum.
pub open spec fn v3_temperature(whole: u8, fraction: u8) -> int {
    let magnitude = 1000 * (whole as int % 128) + 10 * fraction as int;
    if whole >= 128 {
        -magnitude
    } else {
        magnitude
    }
}

/// What a payload of data format 3 says, `buf[0]` being the format byte.
pub open spec fn v3_reading(buf: Seq<u8>) -> Reading
    recommends
        buf.len() >= V3_LENGTH,
{
    Reading {
        format: buf[0] as int,
        temperature: v3_temperature(buf[2], buf[3]),
        pressure: be_u16(buf[4], buf[5]) + 50000,
        humidity: 5000 * buf[1] as int,
        acceleration_x: be_i16(buf[6], buf[7]),
        acceleration_y: be_i16(buf[8], buf[9]),
        acceleration_z: be_i16(buf[10], buf[11]),
        tx_power: 0,
        voltage: be_u16(buf[12], buf[13]),
        movement: 0,
        measurement_sequence: 0,
        mac: Seq::new(6, |i: int| 0u8),
    }
}

/// What a payload of data format 5 says, `buf[0]` being the format byte.
pub open spec fn v5_reading(buf: Seq<u8>) -> Reading
    recommends
        buf.len() >= V5_LENGTH,
{
    Reading {
        format: buf[0] as int,
        temperature: 5 * be_i16(buf[1], buf[2]),
        pressure: be_u16(buf[5], buf[6]) + 50000,
        humidity: 25 * be_u16(buf[3], buf[4]),
        acceleration_x: be_i16(buf[7], buf[8]),
        acceleration_y: be_i16(buf[9], buf[10]),
        acceleration_z: be_i16(buf[11], buf[12]),
        tx_power: 2 * (be_u16(buf[13], buf[14]) % 32) - 40,
        voltage: be_u16(buf[13], buf[14]) / 32 + 1600,
        movement: buf[15] as int,
        measurement_sequence: be_u16(buf[16], buf[17]),
        mac: buf.subrange(18, 24),
    }
}

fn read_u16(buf: &[u8], at: usize) -> (v: u16)
    requires
        at + 1 < buf@.len(),
    ensures
        v as int == be_u16(buf@[at as int], buf@[at + 1]),
{
    let hi: u16 = buf[at] as u16;
    let lo: u16 = buf[at + 1] as u16;
    hi * 256 + lo
}

fn read_i16(buf: &[u8], at: usize) -> (v: i16)
    requires
        at + 1 < buf@.len(),
    ensures
        v as int == be_i16(buf@[at as int], buf@[at + 1]),
{
    let raw: u16 = read_u16(buf, at);
    if raw >= 32768 {
        (raw as i32 - 65536) as i16
    } else {
        raw as i16
    }
}

/// Decodes a payload of data format 5 (RAWv2). `buf` starts at the format
/// byte; bytes after the first [`V5_LENGTH`] are not looked at.
pub fn ruuvi_decode_v5(buf: &[u8]) -> (data: RuuviData)
    requires
        buf@.len() >= V5_LENGTH,
    ensures
        data@ == v5_reading(buf@),
{
    let power: u16 = read_u16(buf, 13);
    proof {
        assert(power & 0b11111 == power % 32) by (bit_vector);
        assert(power >> 5 == power / 32) by (bit_vector);
    }
    let code: u16 = power & 0b11111;
    let millivolts: u16 = (power >> 5) + 1600;
    let data = RuuviData {
        format: buf[0],
        temperature: read_i16(buf, 1) as i32 * 5,
        pressure: read_u16(buf, 5) as u32 + 50000,
        humidity: read_u16(buf, 3) as u32 * 25,
        acceleration_x: read_i16(buf, 7),
        acceleration_y: read_i16(buf, 9),
        acceleration_z: read_i16(buf, 11),
        tx_power: code as i16 * 2 - 40,
        voltage: millivolts,
        movement: buf[15],
        measurement_sequence: read_u16(buf, 16) as u32,
        mac: [buf[18], buf[19], buf[20], buf[21], buf[22], buf[23]],
    };
    proof {
        assert(data.mac@ =~= buf@.subrange(18, 24));
    }
    data
}

/// Decodes a payload of data format 3 (RAWv1). `buf` starts at the format
/// byte; bytes after the first [`V3_LENGTH`] are not looked at.
pub fn ruuvi_decode_v3(buf: &[u8]) -> (data: RuuviData)
    requires
        buf@.len() >= V3_LENGTH,
    ensures
        data@ == v3_reading(buf@),
{
    let whole: u8 = buf[2];
    let degrees: u8 = whole & 0x7F;
    let negative: bool = (whole >> 7) & 1 == 1;
    proof {
        assert(whole & 0x7F == whole % 128) by (bit_vector);
        assert(((whole >> 7) & 1 == 1) == (whole >= 128)) by (bit_vector);
    }
    let magnitude: i32 = degrees as i32 * 1000 + buf[3] as i32 * 10;
    let data = RuuviData {
        format: buf[0],
        temperature: if negative {
            -magnitude
        } else {
            magnitude
        },
        pressure: read_u16(buf, 4) as u32 + 50000,
        humidity: buf[1] as u32 * 5000,
        acceleration_x: read_i16(buf, 6),
        acceleration_y: read_i16(buf, 8),
        acceleration_z: read_i16(buf, 10),
        tx_power: 0,
        voltage: read_u16(buf, 12),
        movement: 0,
        measurement_sequence: 0,
        mac: [0u8; 6],
    };
    proof {
        assert(data.mac@ =~= v3_reading(buf@).mac);
    }
    data
}

/// What an advertisement yields. The bytes are read in order, and the first
/// check that fails decides: the type byte at offset 4 must be `0xFF`, the
/// manufacturer at offsets 5 and 6 must be `0x0499` in little-endian order,
/// and the format byte at offset 7 selects the layout of the payload, which
/// starts at that byte and must be there in full.
pub open spec fn advertisement_outcome(buf: Seq<u8>) -> Result<Reading, DecodeError> {
    if buf.len() < 5 {
        Err(DecodeError::TruncatedPayload)
    } else if buf[4] != 0xFF {
        Err(DecodeError::FramingRejected)
    } else if buf.len() < 7 {
        Err(DecodeError::TruncatedPayload)
    } else if buf[5] != 0x99 || buf[6] != 0x04 {
        Err(DecodeError::FramingRejected)
    } else if buf.len() < 8 {
        Err(DecodeError::TruncatedPayload)
    } else if buf[7] == 3 {
        if buf.len() < PAYLOAD_OFFSET + V3_LENGTH {
            Err(DecodeError::TruncatedPayload)
        } else {
            Ok(v3_reading(buf.subrange(PAYLOAD_OFFSET as int, buf.len() as int)))
        }
    } else if buf[7] == 5 {
        if buf.len() < PAYLOAD_OFFSET + V5_LENGTH {
            Err(DecodeError::TruncatedPayload)
        } else {
            Ok(v5_reading(buf.subrange(PAYLOAD_OFFSET as int, buf.len() as int)))
        }
    } else {
        Err(DecodeError::UnsupportedVersion)
    }
}

/// Validates the framing of an advertisement and decodes its payload.
pub fn decode_advertisement(buf: &[u8]) -> (r: Result<RuuviData, DecodeError>)
    ensures
        r is Ok == advertisement_outcome(buf@) is Ok,
        r matches Ok(data) ==> data@ == advertisement_outcome(buf@)->Ok_0,
        r matches Err(e) ==> e == advertisement_outcome(buf@)->Err_0,
        buf@.len() > 4 && buf@[4] != 0xFF ==> r is Err,
        buf@.len() > 6 && (buf@[5] != 0x99 || buf@[6] != 0x04) ==> r is Err,
        buf@.len() > 7 && buf@[7] != 3 && buf@[7] != 5 ==> r is Err,
{
    let n: usize = buf.len();
    if n < 5 {
        return Err(DecodeError::TruncatedPayload);
    }
    if buf[4] != 0xFF {
        return Err(DecodeError::FramingRejected);
    }
    if n < 7 {
        return Err(DecodeError::TruncatedPayload);
    }
    if buf[5] != 0x99 || buf[6] != 0x04 {
        return Err(DecodeError::FramingRejected);
    }
    if n < 8 {
        return Err(DecodeError::TruncatedPayload);
    }
    let version: u8 = buf[PAYLOAD_OFFSET];
    if version == 3 {
        if n < PAYLOAD_OFFSET + V3_LENGTH {
            return Err(DecodeError::TruncatedPayload);
        }
        Ok(ruuvi_decode_v3(slice_subrange(buf, PAYLOAD_OFFSET, n)))
    } else if version == 5 {
        if n < PAYLOAD_OFFSET + V5_LENGTH {
            return Err(DecodeError::TruncatedPayload);
        }
        Ok(ruuvi_decode_v5(slice_subrange(buf, PAYLOAD_OFFSET, n)))
    } else {
        Err(DecodeError::UnsupportedVersion)
    }
}

/// An advertisement yields no measurement if its type byte is not `0xFF`,
/// if its manufacturer is not `0x99, 0x04`, or if its format byte is
/// neither 3 nor 5.
pub proof fn lemma_framing_is_required(buf: Seq<u8>)
    ensures
        buf.len() > 4 && buf[4] != 0xFF ==> advertisement_outcome(buf) is Err,
        buf.len() > 6 && (buf[5] != 0x99 || buf[6] != 0x04) ==> advertisement_outcome(buf) is Err,
        buf.len() > 7 && buf[7] != 3 && buf[7] != 5 ==> advertisement_outcome(buf) is Err,
        advertisement_outcome(buf) is Ok ==> buf.len() > 7 && buf[4] == 0xFF && buf[5] == 0x99
            && buf[6] == 0x04 && (buf[7] == 3 || buf[7] == 5),
{
}

/// A measurement that an advertisement yields carries the format byte of
/// the advertisement, and is decoded by the layout that the byte names.
pub proof fn lemma_outcome_follows_format(buf: Seq<u8>)
    requires
        advertisement_outcome(buf) is Ok,
    ensures
        advertisement_outcome(buf)->Ok_0.format == buf[PAYLOAD_OFFSET as int],
        buf[PAYLOAD_OFFSET as int] == 3 ==> buf.len() >= PAYLOAD_OFFSET + V3_LENGTH
            && advertisement_outcome(buf)->Ok_0 == v3_reading(
            buf.subrange(PAYLOAD_OFFSET as int, buf.len() as int),
        ),
        buf[PAYLOAD_OFFSET as int] == 5 ==> buf.len() >= PAYLOAD_OFFSET + V5_LENGTH
            && advertisement_outcome(buf)->Ok_0 == v5_reading(
            buf.subrange(PAYLOAD_OFFSET as int, buf.len() as int),
        ),
{
}

/// The reading of a format 3 payload depends on its first [`V3_LENGTH`]
/// bytes alone.
pub proof fn lemma_v3_reads_its_payload_only(a: Seq<u8>, b: Seq<u8>)
    requires
        a.len() >= V3_LENGTH,
        b.len() >= V3_LENGTH,
        a.subrange(0, V3_LENGTH as int) == b.subrange(0, V3_LENGTH as int),
    ensures
        v3_reading(a) == v3_reading(b),
{
    assert forall|i: int| 0 <= i < V3_LENGTH implies a[i] == b[i] by {
        assert(a[i] == a.subrange(0, V3_LENGTH as int)[i]);
        assert(b[i] == b.subrange(0, V3_LENGTH as int)[i]);
    }
}

/// The reading of a format 5 payload depends on its first [`V5_LENGTH`]
/// bytes alone.
pub proof fn lemma_v5_reads_its_payload_only(a: Seq<u8>, b: Seq<u8>)
    requires
        a.len() >= V5_LENGTH,
        b.len() >= V5_LENGTH,
        a.subrange(0, V5_LENGTH as int) == b.subrange(0, V5_LENGTH as int),
    ensures
        v5_reading(a) == v5_reading(b),
{
    assert forall|i: int| 0 <= i < V5_LENGTH implies a[i] == b[i] by {
        assert(a[i] == a.subrange(0, V5_LENGTH as int)[i]);
        assert(b[i] == b.subrange(0, V5_LENGTH as int)[i]);
    }
    assert(a.subrange(18, 24) =~= b.subrange(18, 24));
}

/// The limits within which the readings of the two formats lie. A format 3
/// payload whose hundredths are below 100 stays within 127.99 degrees.
pub proof fn lemma_reading_limits(buf: Seq<u8>)
    ensures
        -163840 <= v5_reading(buf).temperature <= 163835,
        0 <= v5_reading(buf).humidity <= 1638375,
        50000 <= v5_reading(buf).pressure <= 115535,
        -40 <= v5_reading(buf).tx_power <= 22,
        1600 <= v5_reading(buf).voltage <= 3647,
        -129550 <= v3_reading(buf).temperature <= 129550,
        buf[3] < 100 ==> -127990 <= v3_reading(buf).temperature <= 127990,
        0 <= v3_reading(buf).humidity <= 1275000,
        50000 <= v3_reading(buf).pressure <= 115535,
        0 <= v3_reading(buf).voltage <= 65535,
{
}

/// A consumer of measurements.
pub trait RuuviSink {
    /// What one call of [`RuuviSink::sink`] does: whether a sink that was
    /// `before` can be `after` once it has taken `measurement` under
    /// `source_mac`. An implementation that says nothing of itself leaves
    /// this as it is, true of every pair.
    open spec fn takes(
        before: &Self,
        after: &Self,
        source_mac: Seq<char>,
        measurement: Reading,
    ) -> bool {
        true
    }

    /// Takes one measurement. A sink does not fail: one that does fallible
    /// work keeps the measurement and does that work later.
    fn sink(&mut self, source_mac: &str, measurement: RuuviData)
        ensures
            Self::takes(old(self), final(self), source_mac@, measurement@),
    ;
}

/// Decodes an advertisement and, if it holds a measurement, hands the
/// measurement to `sink` under `source_mac`, once. Returns whether it did;
/// a sink that is not given a measurement is not touched.
pub fn decode_ble_ruuvi<S: RuuviSink>(
    buf: &[u8],
    source_mac: &str,
    sink: &mut S,
) -> (accepted: bool)
    ensures
        accepted == advertisement_outcome(buf@) is Ok,
        accepted ==> S::takes(
            old(sink),
            final(sink),
            source_mac@,
            advertisement_outcome(buf@)->Ok_0,
        ),
        !accepted ==> *final(sink) == *old(sink),
        buf@.len() > 4 && buf@[4] != 0xFF ==> !accepted,
        buf@.len() > 6 && (buf@[5] != 0x99 || buf@[6] != 0x04) ==> !accepted,
        buf@.len() > 7 && buf@[7] != 3 && buf@[7] != 5 ==> !accepted,
{
    match decode_advertisement(buf) {
        Ok(measurement) => {
            sink.sink(source_mac, measurement);
            true
        },
        Err(_) => false,
    }
}

/// What the hexadecimal text of an advertisement yields: nothing unless the
/// text is hexadecimal and the bytes it stands for hold a measurement.
pub open spec fn advertisement_text_outcome(s: Seq<char>) -> Option<Reading> {
    if is_hex_string(s) && advertisement_outcome(hex_decoded(s)) is Ok {
        Some(advertisement_outcome(hex_decoded(s))->Ok_0)
    } else {
        None
    }
}

/// Decodes an advertisement given as hexadecimal text and, if it holds a
/// measurement, hands the measurement to `sink` under `source_mac`, once.
/// Returns whether it did; text that is not hexadecimal is refused like any
/// other advertisement without a measurement.
pub fn decode_ble_ruuvi_str<S: RuuviSink>(
    s: &str,
    source_mac: &str,
    sink: &mut S,
) -> (accepted: bool)
    ensures
        accepted == advertisement_text_outcome(s@) is Some,
        accepted ==> S::takes(
            old(sink),
            final(sink),
            source_mac@,
            advertisement_text_outcome(s@)->Some_0,
        ),
        !accepted ==> *final(sink) == *old(sink),
{
    match decode_hex(s) {
        Ok(buf) => decode_ble_ruuvi(buf.as_slice(), source_mac, sink),
        Err(_) => false,
    }
}

} // verus!
