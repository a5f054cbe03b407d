use flightlink::altimeter::{
    Altimeter, BARO_EXPONENT, DBL_GREATEST, DBL_LOWEST, DEFAULT_SEA_LEVEL_PRESSURE,
    altitude_from_power,
};
use flightlink::dbl::{lt_bits, max_bits, min_bits};

fn power_step(ratio_bits: u64) -> u64 {
    f64::from_bits(ratio_bits).powf(f64::from_bits(BARO_EXPONENT)).to_bits()
}

fn altitude_of(pressure: f64, reference: f64) -> f64 {
    let ratio = pressure / reference;
    f64::from_bits(altitude_from_power(ratio.powf(f64::from_bits(BARO_EXPONENT)).to_bits()))
}

#[test]
fn altitude_at_reference_is_zero() {
    assert_eq!(altitude_of(101325.0, 101325.0), 0.0);
    assert_eq!(altitude_of(95000.0, 95000.0), 0.0);
    assert_eq!(altitude_of(100000.0, 100000.0), 0.0);
}

#[test]
fn altitude_decreases_with_pressure() {
    let reference = 100000.0;
    let low = altitude_of(99000.0, reference);
    let mid = altitude_of(95000.0, reference);
    let high = altitude_of(90000.0, reference);
    assert!(high > mid && mid > low && low > 0.0);
    assert!(altitude_of(101000.0, reference) < 0.0);
}

#[test]
fn default_reference_pressure() {
    let a = Altimeter::new();
    assert_eq!(f64::from_bits(a.sea_level_pressure), 102030.0);
    assert_eq!(f64::from_bits(DEFAULT_SEA_LEVEL_PRESSURE), 102030.0);
}

#[test]
fn first_sample_sets_all_extrema() {
    let mut a = Altimeter::new();
    assert_eq!(f64::from_bits(a.stats.maximum_temperature), f64::MIN);
    assert_eq!(f64::from_bits(a.stats.minimum_temperature), f64::MAX);
    assert_eq!(DBL_LOWEST, f64::MIN.to_bits());
    assert_eq!(DBL_GREATEST, f64::MAX.to_bits());

    let ratio = a.update_stats((21.5f64).to_bits(), (101000.0f64).to_bits());
    a.apply_altitude(power_step(ratio));

    assert_eq!(a.stats.maximum_temperature, (21.5f64).to_bits());
    assert_eq!(a.stats.minimum_temperature, (21.5f64).to_bits());
    assert_eq!(a.stats.maximum_pressure, (101000.0f64).to_bits());
    assert_eq!(a.stats.minimum_pressure, (101000.0f64).to_bits());
    assert_eq!(a.stats.maximum_altitude, a.stats.altitude);
    assert_eq!(a.stats.minimum_altitude, a.stats.altitude);
}

#[test]
fn extrema_track_over_samples() {
    let mut a = Altimeter::new();
    for t in [20.0f64, 25.0, 15.0, 22.0] {
        let ratio = a.update_stats(t.to_bits(), (100000.0f64).to_bits());
        a.apply_altitude(power_step(ratio));
    }
    assert_eq!(f64::from_bits(a.stats.maximum_temperature), 25.0);
    assert_eq!(f64::from_bits(a.stats.minimum_temperature), 15.0);
    assert_eq!(f64::from_bits(a.stats.temperature), 22.0);
}

#[test]
fn reset_returns_to_sentinels_and_seed() {
    let mut a = Altimeter::new();
    a.sea_level_pressure((100000.0f64).to_bits());
    let ratio = a.update_stats((20.0f64).to_bits(), (99000.0f64).to_bits());
    a.apply_altitude(power_step(ratio));
    assert!(a.stats.maximum_temperature == (20.0f64).to_bits());

    a.reset_stats();
    assert_eq!(a.stats.maximum_temperature, DBL_LOWEST);
    assert_eq!(a.stats.minimum_temperature, DBL_GREATEST);
    assert_eq!(a.stats.maximum_altitude, DBL_LOWEST);
    assert_eq!(a.stats.minimum_altitude, DBL_GREATEST);
    assert_eq!(a.stats.maximum_pressure, DBL_LOWEST);
    assert_eq!(a.stats.minimum_pressure, DBL_GREATEST);
    assert_eq!(f64::from_bits(a.stats.kalman_state.x), 2500.0);
    assert_eq!(f64::from_bits(a.stats.kalman_state.p), 102178.0);
    assert_eq!(a.stats.kalman_state.n, 0);
    // The reference pressure survives the reset.
    assert_eq!(f64::from_bits(a.sea_level_pressure), 100000.0);
}

#[test]
fn bit_level_comparisons_match_native_floats() {
    let pairs = [
        (1.5f64, 2.5f64),
        (-1.5, 2.5),
        (-2.5, -1.5),
        (0.0, -0.0),
        (f64::MIN, f64::MAX),
        (f64::NEG_INFINITY, f64::MIN),
        (f64::MAX, f64::INFINITY),
        (3.0, 3.0),
    ];
    for (a, b) in pairs {
        assert_eq!(lt_bits(a.to_bits(), b.to_bits()), a < b, "{} < {}", a, b);
        assert_eq!(lt_bits(b.to_bits(), a.to_bits()), b < a, "{} < {}", b, a);
        assert_eq!(f64::from_bits(max_bits(a.to_bits(), b.to_bits())), a.max(b));
        assert_eq!(f64::from_bits(min_bits(a.to_bits(), b.to_bits())), a.min(b));
    }
    let nan = f64::NAN.to_bits();
    assert!(!lt_bits(nan, (1.0f64).to_bits()));
    assert!(!lt_bits((1.0f64).to_bits(), nan));
    assert_eq!(max_bits(nan, (1.0f64).to_bits()), (1.0f64).to_bits());
    assert_eq!(min_bits((1.0f64).to_bits(), nan), (1.0f64).to_bits());
}
