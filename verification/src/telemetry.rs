//! The telemetry record and its fixed 16-byte wire encoding.
//!
//! Layout, little-endian: `time` (u32 milliseconds), then the binary32
//! bit patterns of altitude (ft), temperature (degrees C) and battery
//! voltage (V), four bytes each.

use vstd::prelude::*;

use vstd::bytes::{
    lemma_auto_spec_u32_to_from_le_bytes, spec_u32_from_le_bytes, spec_u32_to_le_bytes,
    u32_from_le_bytes, u32_to_le_bytes,
};
use vstd::slice::slice_subrange;

use crate::altimeter::AltimeterStats;
use crate::battery::BatteryStats;
use crate::datalink::ByteSerialize;
use crate::dbl::sgl_of_dbl;

verus! {

/// Number of bytes of an encoded record.
pub const WIRE_LEN: usize = 16;

/// One telemetry sample: a timestamp and three quantities held as
/// IEEE-754 binary32 bit patterns.
#[derive(Clone, Copy, Debug, PartialEq, Eq, Structural)]
pub struct Telemetry {
    pub time: u32,
    pub altitude: u32,
    pub temperature: u32,
    pub battery_voltage: u32,
}

/// A failure to decode a wire payload.
#[derive(Clone, Copy, Debug, PartialEq, Eq, Structural)]
pub enum DecodeError {
    /// Fewer bytes than one encoded record.
    Truncated,
}

/// The 16-byte little-endian encoding of a record.
pub open spec fn spec_encode(t: Telemetry) -> Seq<u8> {
    spec_u32_to_le_bytes(t.time) + spec_u32_to_le_bytes(t.altitude)
        + spec_u32_to_le_bytes(t.temperature) + spec_u32_to_le_bytes(t.battery_voltage)
}

/// The record that a byte string decodes to: the first 16 bytes read
/// little-endian, trailing bytes ignored; `None` on fewer than 16.
pub open spec fn spec_decode(b: Seq<u8>) -> Option<Telemetry> {
    if b.len() < WIRE_LEN {
        None
    } else {
        Some(
            Telemetry {
                time: spec_u32_from_le_bytes(b.subrange(0, 4)),
                altitude: spec_u32_from_le_bytes(b.subrange(4, 8)),
                temperature: spec_u32_from_le_bytes(b.subrange(8, 12)),
                battery_voltage: spec_u32_from_le_bytes(b.subrange(12, 16)),
            },
        )
    }
}

impl Telemetry {
    /// Encodes the record into its 16 wire bytes.
    pub fn encode(&self) -> (r: Vec<u8>)
        ensures
            r@ == spec_encode(*self),
            r@.len() == WIRE_LEN,
    {
        let mut out = u32_to_le_bytes(self.time);
        let mut altitude = u32_to_le_bytes(self.altitude);
        let mut temperature = u32_to_le_bytes(self.temperature);
        let mut battery_voltage = u32_to_le_bytes(self.battery_voltage);
        out.append(&mut altitude);
        out.append(&mut temperature);
        out.append(&mut battery_voltage);
        assert(out@ =~= spec_encode(*self));
        out
    }

    /// Decodes a record from the front of `buffer`; bytes past the
    /// sixteenth are ignored, fewer than sixteen are an error.
    pub fn decode(buffer: &[u8]) -> (r: Result<Telemetry, DecodeError>)
        ensures
            r == match spec_decode(buffer@) {
                Some(t) => Ok::<Telemetry, DecodeError>(t),
                None => Err::<Telemetry, DecodeError>(DecodeError::Truncated),
            },
    {
        if buffer.len() < WIRE_LEN {
            return Err(DecodeError::Truncated);
        }
        Ok(
            Telemetry {
                time: u32_from_le_bytes(slice_subrange(buffer, 0, 4)),
                altitude: u32_from_le_bytes(slice_subrange(buffer, 4, 8)),
                temperature: u32_from_le_bytes(slice_subrange(buffer, 8, 12)),
                battery_voltage: u32_from_le_bytes(slice_subrange(buffer, 12, 16)),
            },
        )
    }
}

impl Default for Telemetry {
    /// The all-zero record (time 0, every quantity +0.0).
    fn default() -> (r: Self)
        ensures
            r == (Telemetry { time: 0, altitude: 0, temperature: 0, battery_voltage: 0 }),
    {
        Telemetry { time: 0, altitude: 0, temperature: 0, battery_voltage: 0 }
    }
}

/// The record that a pair of snapshots converts to: time 0, altitude
/// and temperature narrowed to single precision, the battery voltage
/// taken as it is.
pub open spec fn spec_telemetry_from(value: (AltimeterStats, BatteryStats)) -> Telemetry {
    Telemetry {
        time: 0,
        altitude: sgl_of_dbl(value.0.altitude),
        temperature: sgl_of_dbl(value.0.temperature),
        battery_voltage: value.1.voltage,
    }
}

impl From<(AltimeterStats, BatteryStats)> for Telemetry {
    /// A record at time 0 from an altimeter snapshot and a battery
    /// snapshot, narrowing altitude and temperature to single
    /// precision.
    fn from(value: (AltimeterStats, BatteryStats)) -> (r: Self)
        ensures
            r == spec_telemetry_from(value),
    {
        Telemetry {
            time: 0,
            altitude: crate::dbl::narrow_bits(value.0.altitude),
            temperature: crate::dbl::narrow_bits(value.0.temperature),
            battery_voltage: value.1.voltage,
        }
    }
}

impl vstd::std_specs::convert::FromSpecImpl<(AltimeterStats, BatteryStats)> for Telemetry {
    open spec fn obeys_from_spec() -> bool {
        true
    }

    open spec fn from_spec(value: (AltimeterStats, BatteryStats)) -> Telemetry {
        spec_telemetry_from(value)
    }
}

impl ByteSerialize<Telemetry> for Telemetry {
    /// The encoding of [`spec_encode`].
    open spec fn wire(&self) -> Seq<u8> {
        spec_encode(*self)
    }

    /// The decoding of [`spec_decode`].
    open spec fn parsed(buffer: Seq<u8>) -> Option<Telemetry> {
        spec_decode(buffer)
    }

    fn as_bytes(&self, buffer: &mut Vec<u8>) -> (r: Result<(), ()>) {
        let encoded = self.encode();
        let mut i: usize = 0;
        while i < WIRE_LEN
            invariant
                i <= WIRE_LEN,
                encoded@ == spec_encode(*self),
                encoded@.len() == WIRE_LEN,
                buffer@.len() == old(buffer)@.len(),
                old(buffer)@.len() >= WIRE_LEN,
                buffer@ =~= encoded@.take(i as int) + old(buffer)@.skip(i as int),
            decreases WIRE_LEN - i,
        {
            let b = encoded[i];
            buffer[i] = b;
            i = i + 1;
        }
        assert(buffer@ =~= self.wire() + old(buffer)@.skip(WIRE_LEN as int));
        Ok(())
    }

    fn from_bytes(buffer: &[u8]) -> (r: Result<Telemetry, ()>) {
        match Telemetry::decode(buffer) {
            Ok(t) => Ok(t),
            Err(_) => Err(()),
        }
    }
}

/// Encoding then decoding gives the record back: for every record `t`,
/// `spec_decode(spec_encode(t)) == Some(t)`, exactly.
pub proof fn lemma_codec_round_trip(t: Telemetry)
    ensures
        spec_decode(spec_encode(t)) == Some(t),
{
    lemma_auto_spec_u32_to_from_le_bytes();
    let e = spec_encode(t);
    assert(e.subrange(0, 4) =~= spec_u32_to_le_bytes(t.time));
    assert(e.subrange(4, 8) =~= spec_u32_to_le_bytes(t.altitude));
    assert(e.subrange(8, 12) =~= spec_u32_to_le_bytes(t.temperature));
    assert(e.subrange(12, 16) =~= spec_u32_to_le_bytes(t.battery_voltage));
}

/// Decoding ignores trailing bytes: a decoded payload and any
/// extension of it decode to the same record.
pub proof fn lemma_decode_ignores_trailing(b: Seq<u8>, extra: Seq<u8>)
    requires
        b.len() >= WIRE_LEN,
    ensures
        spec_decode(b + extra) == spec_decode(b),
{
    let c = b + extra;
    assert(c.subrange(0, 4) =~= b.subrange(0, 4));
    assert(c.subrange(4, 8) =~= b.subrange(4, 8));
    assert(c.subrange(8, 12) =~= b.subrange(8, 12));
    assert(c.subrange(12, 16) =~= b.subrange(12, 16));
}

} // verus!
