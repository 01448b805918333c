[package]
name = "proof_verifier"
version = "0.1.0"
edition = "2021"
publish = false

[dependencies]
filecoin-proofs-api = { version = "=19.1.0", default-features = false }
rayon = "=1.12.0"
blstrs = "=0.7.1"
