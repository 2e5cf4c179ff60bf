[package]
name = "circuit_helper"
version = "0.1.0"
edition = "2021"
publish = false

[dependencies]
halo2_proofs = "0.3.5"
rand = "0.8"
rand_xorshift = "0.3"
