//! Battery charge detection and voltage scaling.
//!
//! The pin and ADC reads happen at the hardware boundary; this module
//! holds the decisions and arithmetic applied to what was read.

use vstd::prelude::*;

use crate::dbl::{div_bits, mul_bits, narrow_bits, of_u32_bits};
use crate::dbl::{dbl_div, dbl_mul, dbl_of_u32, sgl_of_dbl};

verus! {

/// Full ADC scale (4095.0, 12-bit resolution).
pub const ADC_FULL_SCALE: u64 = 0x40AF_FE00_0000_0000;

/// Lower leg of the battery divider network (160.0, in kOhm).
pub const DIVIDER_LOW: u64 = 0x4064_0000_0000_0000;

/// Whole battery divider network (602.0, in kOhm).
pub const DIVIDER_WHOLE: u64 = 0x4082_D000_0000_0000;

/// ADC reference voltage (3.7).
pub const ADC_REFERENCE: u64 = 0x400D_9999_9999_999A;

/// A failure while reading the battery hardware, wrapping the bus
/// error `V` of the failing read.
#[derive(Clone, Copy, Debug)]
pub enum BatteryError<V> {
    ChargeError(V),
    VoltageError(V),
}

/// A snapshot of the battery: whether it is charging, and its voltage
/// as an IEEE-754 binary32 bit pattern.
#[derive(Clone, Copy, Debug, PartialEq, Eq, Structural)]
pub struct BatteryStats {
    pub charging: bool,
    pub voltage: u32,
}

/// Whether a run of charge-pin samples means "charging": the charge
/// pin low on every sample.
pub fn charging_from_samples(samples: &[bool]) -> (r: bool)
    ensures
        r <==> (forall|i: int| 0 <= i < samples@.len() ==> !samples@[i]),
{
    let mut high_count: usize = 0;
    let mut i: usize = 0;
    while i < samples.len()
        invariant
            i <= samples@.len(),
            high_count == 0 <==> (forall|j: int| 0 <= j < i ==> !samples@[j]),
            high_count <= i,
        decreases samples@.len() - i,
    {
        if *vstd::slice::slice_index_get(samples, i) {
            high_count = high_count + 1;
        }
        i = i + 1;
    }
    high_count == 0
}

/// The battery voltage that a raw ADC reading stands for:
/// `raw / 4095 / (160 / 602) * 3.7`, undoing the divider network.
pub open spec fn spec_voltage_from_adc(raw: u16) -> u64 {
    dbl_mul(
        dbl_div(dbl_div(dbl_of_u32(raw as u32), ADC_FULL_SCALE), dbl_div(DIVIDER_LOW, DIVIDER_WHOLE)),
        ADC_REFERENCE,
    )
}

/// Scales a raw ADC reading to the battery voltage it stands for.
pub fn voltage_from_adc(raw: u16) -> (r: u64)
    ensures
        r == spec_voltage_from_adc(raw),
{
    let scale = div_bits(DIVIDER_LOW, DIVIDER_WHOLE);
    mul_bits(div_bits(div_bits(of_u32_bits(raw as u32), ADC_FULL_SCALE), scale), ADC_REFERENCE)
}

/// Packs a charge decision and a double-precision voltage into a
/// snapshot, narrowing the voltage to single precision.
pub fn stats_from_readings(charging: bool, voltage: u64) -> (r: BatteryStats)
    ensures
        r == (BatteryStats { charging, voltage: sgl_of_dbl(voltage) }),
{
    BatteryStats { charging, voltage: narrow_bits(voltage) }
}

} // verus!
