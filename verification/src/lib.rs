//! Flight telemetry and datalink core for a model-rocket altimeter.
//!
//! The library models every physical quantity as an IEEE-754 bit pattern
//! (`u64` for double precision, `u32` for single precision) and states its
//! contracts over those patterns.  Arithmetic on the patterns is delegated
//! to a software floating-point crate behind a small set of trusted
//! wrappers; everything around the arithmetic is verified.

pub mod altimeter;
pub mod battery;
pub mod buzzer;
pub mod command;
pub mod datalink;
pub mod dbl;
pub mod kalman;
pub mod recording;
pub mod telemetry;
