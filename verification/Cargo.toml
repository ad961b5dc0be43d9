[package]
name = "extrinsic_builder"
version = "0.1.0"
edition = "2021"
publish = false

[dependencies]
schnorrkel = "0.11"
ed25519-dalek = "2"
libsecp256k1 = "0.7"
blake2b_simd = "1"

[dev-dependencies]
parity-scale-codec = "3"
