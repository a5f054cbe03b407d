//! One-dimensional Kalman filtering of a slowly varying measurement.
//!
//! All quantities are IEEE-754 binary64 bit patterns; the arithmetic is
//! the named softfloat arithmetic of [`crate::dbl`], so each contract
//! pins the produced state exactly.

use vstd::prelude::*;

use crate::dbl::{add_bits, div_bits, mul_bits, sub_bits};
use crate::dbl::{dbl_add, dbl_div, dbl_mul, dbl_sub};
use crate::dbl::DBL_ONE;

verus! {

/// Scalar Kalman filter state: `n` samples seen, current estimate `x`
/// and variance `p`, and the priors `next_x` / `next_p` used by the
/// next update.
#[derive(Clone, Copy, Debug, PartialEq, Eq, Structural)]
pub struct KalmanState {
    pub n: u32,
    pub x: u64,
    pub next_x: u64,
    pub p: u64,
    pub next_p: u64,
}

/// The seeded state: no samples yet, estimate `x_0`, variance `p_0`.
pub open spec fn spec_kalman_new(p_0: u64, x_0: u64) -> KalmanState {
    KalmanState { n: 0, x: x_0, next_x: x_0, p: p_0, next_p: p_0 }
}

/// One update step: gain `k = p / (p + r_n)` blends the measurement
/// `z_n` into the prior estimate; the variance shrinks by `1 - k` and
/// then grows by the process noise `q`.
pub open spec fn spec_kalman_update(s: KalmanState, r_n: u64, z_n: u64, q: u64) -> KalmanState
    recommends
        s.n < u32::MAX,
{
    let k = dbl_div(s.next_p, dbl_add(s.next_p, r_n));
    let x = dbl_add(s.next_x, dbl_mul(k, dbl_sub(z_n, s.next_x)));
    let p = dbl_mul(s.next_p, dbl_sub(DBL_ONE, k));
    KalmanState { n: (s.n + 1) as u32, x, next_x: x, p, next_p: dbl_add(p, q) }
}

impl KalmanState {
    /// Seeds the filter with a variance `p_0` and an estimate `x_0`.
    pub fn new(p_0: u64, x_0: u64) -> (s: Self)
        ensures
            s == spec_kalman_new(p_0, x_0),
    {
        KalmanState { n: 0, x: x_0, next_x: x_0, p: p_0, next_p: p_0 }
    }

    /// Folds the measurement `z_n` (with measurement noise `r_n` and
    /// process noise `q`) into the state.
    pub fn update(&mut self, r_n: u64, z_n: u64, q: u64)
        requires
            old(self).n < u32::MAX,
        ensures
            *final(self) == spec_kalman_update(*old(self), r_n, z_n, q),
    {
        let k_n = div_bits(self.next_p, add_bits(self.next_p, r_n));

        self.x = add_bits(self.next_x, mul_bits(k_n, sub_bits(z_n, self.next_x)));
        self.p = mul_bits(self.next_p, sub_bits(DBL_ONE, k_n));

        self.n = self.n + 1;

        self.next_x = self.x;
        self.next_p = add_bits(self.p, q);
    }
}

/// The running mean after one more measurement: the previous estimate
/// moved toward the measurement by `1/n` of their distance.
pub open spec fn spec_update_average(prev_estimate: u64, measurement: u64, n: u32) -> u64 {
    dbl_add(prev_estimate, dbl_div(dbl_sub(measurement, prev_estimate), crate::dbl::dbl_of_u32(n)))
}

/// Folds one more measurement into a running average over `n` samples.
pub fn update_average(prev_estimate: u64, measurement: u64, n: u32) -> (r: u64)
    ensures
        r == spec_update_average(prev_estimate, measurement, n),
{
    add_bits(
        prev_estimate,
        div_bits(sub_bits(measurement, prev_estimate), crate::dbl::of_u32_bits(n)),
    )
}

} // verus!
