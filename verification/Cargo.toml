[package]
name = "amplitude_scale_offset"
version = "0.1.0"
edition = "2021"
publish = false

[dependencies]
rustc_apfloat = "*"
serde_json = "*"
