[package]
name = "vec3"
version = "0.1.0"
edition = "2021"

[dependencies]
rustc_apfloat = "=0.2.3"
ieee-apsqrt = "=0.1.1"
