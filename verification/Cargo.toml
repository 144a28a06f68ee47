[package]
name = "orchard_keys"
version = "0.1.0"
edition = "2021"
publish = false

[dependencies]
bech32 = "=0.8.1"
blake2b_simd = "=0.5.11"
halo2_proofs = "=0.3.5"
hex = "=0.4.3"
rand_core = "=0.6.4"
redjubjub = "=0.7.0"
ed25519-zebra = "=2.2.0"
x25519-dalek = "=1.1.1"
serde = { version = "1", features = ["derive"] }
