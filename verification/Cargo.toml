[package]
name = "ristretto255"
version = "0.1.0"
edition = "2021"
publish = false

[dependencies]
curve25519-dalek = { version = "4", features = ["group"] }
group = "0.13"
hmac = "0.12"
sha2 = "0.10"
subtle = "2"
rand_core = "0.6"
zeroize = "1"
generic-ec-core = "*"
