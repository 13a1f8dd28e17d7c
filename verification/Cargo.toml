[package]
name = "groth16_verifier"
version = "0.1.0"
edition = "2021"
publish = false

[dependencies]
bls12_381 = "=0.8.0"
ff = "=0.13.1"
pairing_ce = "=0.28.6"
parity-scale-codec = "=3.7.5"
serde = { version = "=1.0.229", features = ["derive"] }
serde_json = "=1.0.154"

[dev-dependencies]
bellman = "=0.14.0"
bellman_ce = "=0.8.0"
