[package]
name = "ed25519_quirks"
version = "0.1.0"
edition = "2021"
publish = false

[dependencies]
curve25519-dalek = "=4.1.3"
ed25519-dalek = { version = "=2.2.0", features = ["legacy_compatibility"] }
sha2 = "=0.10.9"
rand_core = { version = "=0.6.4", features = ["getrandom"] }
