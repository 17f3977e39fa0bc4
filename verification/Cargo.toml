[package]
name = "sr25519_ecies"
version = "0.1.0"
edition = "2021"
publish = false

[dependencies]
chacha20poly1305 = "0.10"
curve25519-dalek = "4.1"
merlin = "3.0"
rand_core = { version = "0.6", features = ["getrandom"] }
subtle = "2"
zeroize = "1"

[dev-dependencies]
rand_chacha = "0.3"
