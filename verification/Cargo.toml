[package]
name = "cnv_ratio"
version = "0.1.0"
edition = "2021"
publish = false

[dependencies]
flate2 = "*"
rust-htslib = { version = "*", default-features = false }
