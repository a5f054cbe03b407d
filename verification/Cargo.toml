[package]
name = "flightlink"
version = "0.1.0"
edition = "2021"
publish = false

[dependencies]
rustc_apfloat = "*"

[dev-dependencies]
bytes = "*"
