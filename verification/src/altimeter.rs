//! Altitude estimation from barometric pressure.
//!
//! The altimeter filters raw pressure through a scalar Kalman filter,
//! converts the filtered pressure to altitude with the barometric
//! formula `(1 - (p / p_sea)^0.190284) * 145366.45` feet, and keeps
//! running extrema of altitude, temperature and raw pressure.
//!
//! The one transcendental step of the formula, raising the pressure
//! ratio to `0.190284`, is computed by the caller's floating-point unit:
//! [`Altimeter::update_stats`] returns the ratio, and the caller hands
//! the powered ratio back to [`Altimeter::apply_altitude`].  Everything
//! around that step is verified against the named softfloat arithmetic
//! of [`crate::dbl`].

use vstd::prelude::*;

use crate::dbl::{div_bits, max_bits, min_bits, mul_bits, sub_bits};
use crate::dbl::{dbl_div, dbl_is_nan, dbl_le, dbl_mag, dbl_max, dbl_min, dbl_mul, dbl_sub};
use crate::dbl::DBL_INF_MAG;
use crate::kalman::{spec_kalman_new, spec_kalman_update, KalmanState};
use crate::dbl::DBL_ONE;

verus! {

/// Bit pattern of the most negative finite double; the sentinel a
/// maximum starts from, so the first real sample raises it.
pub const DBL_LOWEST: u64 = 0xFFEF_FFFF_FFFF_FFFF;

/// Bit pattern of the greatest finite double; the sentinel a minimum
/// starts from, so the first real sample lowers it.
pub const DBL_GREATEST: u64 = 0x7FEF_FFFF_FFFF_FFFF;

/// Seed variance of the pressure filter (102178.0).
pub const KALMAN_SEED_VARIANCE: u64 = 0x40F8_F220_0000_0000;

/// Seed estimate of the pressure filter (2500.0 Pa).
pub const KALMAN_SEED_ESTIMATE: u64 = 0x40A3_8800_0000_0000;

/// Measurement noise used for every pressure update (1.0).
pub const MEASUREMENT_NOISE: u64 = 0x3FF0_0000_0000_0000;

/// Process noise added to the variance after every update (0.4).
pub const PROCESS_NOISE: u64 = 0x3FD9_9999_9999_999A;

/// Default sea-level reference pressure (102030.0 Pa).
pub const DEFAULT_SEA_LEVEL_PRESSURE: u64 = 0x40F8_E8E0_0000_0000;

/// Scale of the barometric formula (145366.45 ft).
pub const ALTITUDE_SCALE: u64 = 0x4101_BEB3_9999_999A;

/// Exponent of the barometric formula (0.190284); the caller raises the
/// pressure ratio to this power between the two update phases.
pub const BARO_EXPONENT: u64 = 0x3FC8_5B39_E279_DD3C;

/// Current readings, filtered pressure, running extrema, and the
/// filter state that produces the filtered pressure.
///
/// Each quantity is an IEEE-754 binary64 bit pattern.  Before the
/// first sample the extrema hold the finite sentinels [`DBL_LOWEST`]
/// (maxima) and [`DBL_GREATEST`] (minima), so any finite sample
/// replaces both bounds at once.
#[derive(Clone, Copy, Debug, PartialEq, Eq, Structural)]
pub struct AltimeterStats {
    pub maximum_altitude: u64,
    pub minimum_altitude: u64,
    pub maximum_temperature: u64,
    pub minimum_temperature: u64,
    pub maximum_pressure: u64,
    pub minimum_pressure: u64,
    pub altitude: u64,
    pub temperature: u64,
    pub pressure: u64,
    pub filtered_pressure: u64,
    pub kalman_state: KalmanState,
}

/// The stats before any sample: zero readings, sentinel extrema, and
/// the freshly seeded filter.
pub open spec fn spec_default_stats() -> AltimeterStats {
    AltimeterStats {
        maximum_altitude: DBL_LOWEST,
        minimum_altitude: DBL_GREATEST,
        maximum_temperature: DBL_LOWEST,
        minimum_temperature: DBL_GREATEST,
        maximum_pressure: DBL_LOWEST,
        minimum_pressure: DBL_GREATEST,
        altitude: 0,
        temperature: 0,
        pressure: 0,
        filtered_pressure: 0,
        kalman_state: spec_kalman_new(KALMAN_SEED_VARIANCE, KALMAN_SEED_ESTIMATE),
    }
}

impl Default for AltimeterStats {
    /// The pre-sample state described by [`spec_default_stats`].
    fn default() -> (r: Self)
        ensures
            r == spec_default_stats(),
    {
        AltimeterStats {
            maximum_altitude: DBL_LOWEST,
            minimum_altitude: DBL_GREATEST,
            maximum_temperature: DBL_LOWEST,
            minimum_temperature: DBL_GREATEST,
            maximum_pressure: DBL_LOWEST,
            minimum_pressure: DBL_GREATEST,
            altitude: 0,
            temperature: 0,
            pressure: 0,
            filtered_pressure: 0,
            kalman_state: KalmanState::new(KALMAN_SEED_VARIANCE, KALMAN_SEED_ESTIMATE),
        }
    }
}

/// The stats after the filtering phase of a sample: the filter has
/// absorbed `pressure`, the current temperature and pressure are
/// recorded, and their extrema are widened.  The altitude fields wait
/// for the power step.
pub open spec fn spec_filter_phase(s: AltimeterStats, temperature: u64, pressure: u64) -> AltimeterStats {
    let k = spec_kalman_update(s.kalman_state, MEASUREMENT_NOISE, pressure, PROCESS_NOISE);
    AltimeterStats {
        temperature,
        pressure,
        kalman_state: k,
        filtered_pressure: k.x,
        maximum_temperature: dbl_max(s.maximum_temperature, temperature),
        minimum_temperature: dbl_min(s.minimum_temperature, temperature),
        maximum_pressure: dbl_max(s.maximum_pressure, pressure),
        minimum_pressure: dbl_min(s.minimum_pressure, pressure),
        ..s
    }
}

/// The altitude that a powered pressure ratio yields:
/// `(1 - pow_ratio) * 145366.45`.
pub open spec fn spec_altitude_from_power(pow_ratio: u64) -> u64 {
    dbl_mul(dbl_sub(DBL_ONE, pow_ratio), ALTITUDE_SCALE)
}

/// The stats after the power step of a sample: the altitude derived
/// from `pow_ratio` is recorded and its extrema are widened.
pub open spec fn spec_power_phase(s: AltimeterStats, pow_ratio: u64) -> AltimeterStats {
    let altitude = spec_altitude_from_power(pow_ratio);
    AltimeterStats {
        altitude,
        maximum_altitude: dbl_max(s.maximum_altitude, altitude),
        minimum_altitude: dbl_min(s.minimum_altitude, altitude),
        ..s
    }
}

/// The altitude estimator: the running stats and the sea-level
/// reference pressure that altitude conversion divides by.
#[derive(Clone, Copy, Debug, PartialEq, Eq, Structural)]
pub struct Altimeter {
    pub stats: AltimeterStats,
    pub sea_level_pressure: u64,
}

impl Altimeter {
    /// A fresh estimator: default stats, default reference pressure.
    pub fn new() -> (a: Altimeter)
        ensures
            a.stats == spec_default_stats(),
            a.sea_level_pressure == DEFAULT_SEA_LEVEL_PRESSURE,
    {
        Altimeter { stats: AltimeterStats::default(), sea_level_pressure: DEFAULT_SEA_LEVEL_PRESSURE }
    }

    /// Sets the sea-level reference pressure used from the next sample on.
    pub fn sea_level_pressure(&mut self, sea_level_pressure: u64)
        ensures
            *final(self) == (Altimeter { sea_level_pressure, ..*old(self) }),
    {
        self.sea_level_pressure = sea_level_pressure;
    }

    /// Puts the stats and the filter back to their pre-sample state;
    /// the reference pressure is kept.
    pub fn reset_stats(&mut self)
        ensures
            *final(self) == (Altimeter { stats: spec_default_stats(), ..*old(self) }),
    {
        self.stats = AltimeterStats::default();
    }

    /// The filtering phase of one sample: absorbs the raw readings and
    /// returns the ratio of filtered pressure to reference pressure.
    /// The caller raises the ratio to [`BARO_EXPONENT`] and hands the
    /// result to [`Altimeter::apply_altitude`].
    pub fn update_stats(&mut self, temperature: u64, pressure: u64) -> (ratio: u64)
        requires
            old(self).stats.kalman_state.n < u32::MAX,
        ensures
            final(self).stats == spec_filter_phase(old(self).stats, temperature, pressure),
            final(self).sea_level_pressure == old(self).sea_level_pressure,
            ratio == dbl_div(final(self).stats.filtered_pressure, old(self).sea_level_pressure),
    {
        self.stats.temperature = temperature;
        self.stats.pressure = pressure;

        self.stats.kalman_state.update(MEASUREMENT_NOISE, pressure, PROCESS_NOISE);
        self.stats.filtered_pressure = self.stats.kalman_state.x;

        self.stats.maximum_temperature = max_bits(self.stats.maximum_temperature, temperature);
        self.stats.minimum_temperature = min_bits(self.stats.minimum_temperature, temperature);

        self.stats.maximum_pressure = max_bits(self.stats.maximum_pressure, pressure);
        self.stats.minimum_pressure = min_bits(self.stats.minimum_pressure, pressure);

        div_bits(self.stats.filtered_pressure, self.sea_level_pressure)
    }

    /// The power step of one sample: converts the powered pressure
    /// ratio to altitude and widens the altitude extrema.
    pub fn apply_altitude(&mut self, pow_ratio: u64)
        ensures
            final(self).stats == spec_power_phase(old(self).stats, pow_ratio),
            final(self).sea_level_pressure == old(self).sea_level_pressure,
    {
        let altitude = altitude_from_power(pow_ratio);
        self.stats.altitude = altitude;
        self.stats.maximum_altitude = max_bits(self.stats.maximum_altitude, altitude);
        self.stats.minimum_altitude = min_bits(self.stats.minimum_altitude, altitude);
    }
}

/// `(1 - pow_ratio) * 145366.45`: the altitude in feet for a pressure
/// ratio already raised to [`BARO_EXPONENT`].
pub fn altitude_from_power(pow_ratio: u64) -> (r: u64)
    ensures
        r == spec_altitude_from_power(pow_ratio),
{
    mul_bits(sub_bits(DBL_ONE, pow_ratio), ALTITUDE_SCALE)
}

/// Widening a running minimum and maximum with a sample keeps the
/// sample between them: for any non-NaN sample `x`,
/// `min(lo, x) <= x <= max(hi, x)`.
pub proof fn lemma_extrema_bracket(lo: u64, hi: u64, x: u64)
    requires
        !dbl_is_nan(x),
    ensures
        dbl_le(dbl_min(lo, x), x),
        dbl_le(x, dbl_max(hi, x)),
{
}

/// After a full sampling cycle the running extrema bracket the
/// current values: for non-NaN readings, each minimum is at or below
/// the reading it tracks and each maximum at or above it, and the
/// same holds of the derived altitude when it is a number.
pub proof fn lemma_update_brackets_sample(
    s: AltimeterStats,
    temperature: u64,
    pressure: u64,
    pow_ratio: u64,
)
    requires
        !dbl_is_nan(temperature),
        !dbl_is_nan(pressure),
    ensures
        ({
            let after = spec_power_phase(spec_filter_phase(s, temperature, pressure), pow_ratio);
            &&& dbl_le(after.minimum_temperature, temperature)
            &&& dbl_le(temperature, after.maximum_temperature)
            &&& dbl_le(after.minimum_pressure, pressure)
            &&& dbl_le(pressure, after.maximum_pressure)
            &&& !dbl_is_nan(after.altitude) ==> dbl_le(after.minimum_altitude, after.altitude)
                && dbl_le(after.altitude, after.maximum_altitude)
        }),
{
}

/// The sample right after a reset pins every extremum to itself: for
/// finite readings, minimum, maximum and current value coincide in
/// each tracked quantity.
pub proof fn lemma_reset_then_sample(temperature: u64, pressure: u64, pow_ratio: u64)
    requires
        dbl_mag(temperature) < DBL_INF_MAG,
        dbl_mag(pressure) < DBL_INF_MAG,
    ensures
        ({
            let after = spec_power_phase(
                spec_filter_phase(spec_default_stats(), temperature, pressure),
                pow_ratio,
            );
            &&& after.minimum_temperature == temperature
            &&& after.maximum_temperature == temperature
            &&& after.minimum_pressure == pressure
            &&& after.maximum_pressure == pressure
            &&& dbl_mag(after.altitude) < DBL_INF_MAG ==> after.minimum_altitude
                == after.altitude && after.maximum_altitude == after.altitude
        }),
{
    lemma_first_sample_extrema(temperature);
    lemma_first_sample_extrema(pressure);
    let altitude = spec_altitude_from_power(pow_ratio);
    if dbl_mag(altitude) < DBL_INF_MAG {
        lemma_first_sample_extrema(altitude);
    }
}

/// The first sample after a reset replaces both sentinels: for any
/// finite sample `x`, `min(DBL_GREATEST, x) == x` and
/// `max(DBL_LOWEST, x) == x`, so minimum, maximum and current value
/// coincide.
pub proof fn lemma_first_sample_extrema(x: u64)
    requires
        dbl_mag(x) < DBL_INF_MAG,
    ensures
        dbl_min(DBL_GREATEST, x) == x,
        dbl_max(DBL_LOWEST, x) == x,
{
    assert(x & 0x7FFF_FFFF_FFFF_FFFF <= 0x7FEF_FFFF_FFFF_FFFF || x & 0x7FFF_FFFF_FFFF_FFFF >= 0x7FF0_0000_0000_0000) by (bit_vector);
    assert((x >= 0x8000_0000_0000_0000 && x & 0x7FFF_FFFF_FFFF_FFFF == 0x7FEF_FFFF_FFFF_FFFF) ==> x == 0xFFEF_FFFF_FFFF_FFFF) by (bit_vector);
    assert((x < 0x8000_0000_0000_0000 && x & 0x7FFF_FFFF_FFFF_FFFF == 0x7FEF_FFFF_FFFF_FFFF) ==> x == 0x7FEF_FFFF_FFFF_FFFF) by (bit_vector);
    assert(0x7FEF_FFFF_FFFF_FFFFu64 & 0x7FFF_FFFF_FFFF_FFFF == 0x7FEF_FFFF_FFFF_FFFF) by (bit_vector);
    assert(0xFFEF_FFFF_FFFF_FFFFu64 & 0x7FFF_FFFF_FFFF_FFFF == 0x7FEF_FFFF_FFFF_FFFF) by (bit_vector);
}

} // verus!
