use flightlink::altimeter::{
    KALMAN_SEED_ESTIMATE, KALMAN_SEED_VARIANCE, MEASUREMENT_NOISE, PROCESS_NOISE,
};
use flightlink::kalman::{update_average, KalmanState};

#[test]
fn seeded_state_starts_at_the_seed() {
    let s = KalmanState::new(KALMAN_SEED_VARIANCE, KALMAN_SEED_ESTIMATE);
    assert_eq!(s.n, 0);
    assert_eq!(f64::from_bits(s.x), 2500.0);
    assert_eq!(f64::from_bits(s.p), 102178.0);
}

#[test]
fn update_matches_native_arithmetic() {
    let mut s = KalmanState::new((50.0f64).to_bits(), (10.0f64).to_bits());
    s.update((1.0f64).to_bits(), (20.0f64).to_bits(), (0.4f64).to_bits());

    let k = 50.0f64 / (50.0f64 + 1.0f64);
    let x = 10.0f64 + k * (20.0f64 - 10.0f64);
    let p = 50.0f64 * (1.0f64 - k);
    assert_eq!(s.n, 1);
    assert_eq!(s.x, x.to_bits());
    assert_eq!(s.next_x, x.to_bits());
    assert_eq!(s.p, p.to_bits());
    assert_eq!(s.next_p, (p + 0.4f64).to_bits());
}

#[test]
fn constant_stream_converges_monotonically() {
    let measurement = 100000.0f64;
    let mut s = KalmanState::new(KALMAN_SEED_VARIANCE, KALMAN_SEED_ESTIMATE);
    let mut prev_err = (f64::from_bits(s.x) - measurement).abs();
    for i in 0..40 {
        s.update(MEASUREMENT_NOISE, measurement.to_bits(), PROCESS_NOISE);
        let err = (f64::from_bits(s.x) - measurement).abs();
        assert!(err <= prev_err, "error grew at sample {}", i);
        if i < 10 && prev_err > 0.0 {
            assert!(err < prev_err, "error stalled early at sample {}", i);
        }
        prev_err = err;
    }
    assert!(prev_err < 0.001);
    assert_eq!(s.n, 40);
}

#[test]
fn variance_decreases_until_noise_floor() {
    let measurement = 100000.0f64;
    let mut s = KalmanState::new(KALMAN_SEED_VARIANCE, KALMAN_SEED_ESTIMATE);
    let mut prev_p = f64::from_bits(s.p);
    for i in 0..12 {
        s.update(MEASUREMENT_NOISE, measurement.to_bits(), PROCESS_NOISE);
        let p = f64::from_bits(s.p);
        assert!(p < prev_p, "variance did not shrink at sample {}", i);
        prev_p = p;
    }
    // The floor where the added process noise balances the shrinking.
    assert!(prev_p > 0.4 && prev_p < 1.0);
}

#[test]
fn update_average_exact() {
    let r = update_average((10.0f64).to_bits(), (20.0f64).to_bits(), 2);
    assert_eq!(f64::from_bits(r), 15.0);
    let r = update_average((0.0f64).to_bits(), (7.0f64).to_bits(), 7);
    assert_eq!(f64::from_bits(r), 1.0);
}
