[package]
name = "fp12_tower"
version = "0.1.0"
edition = "2021"
publish = false

[dependencies]
ark-bls12-381 = "=0.6.0"
ark-ff = "=0.6.0"
rand_core = "=0.6.4"

[dev-dependencies]
rand_xorshift = "=0.3.0"
ark-std = "=0.6.0"
ark-ec = "=0.6.0"
