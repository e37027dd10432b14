[package]
name = "zerochain"
version = "0.1.0"
edition = "2021"
publish = false

[dependencies]
jubjub = "*"
blake2b_simd = "*"
