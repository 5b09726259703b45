[package]
name = "pgp_signature"
version = "0.1.0"
edition = "2021"
publish = false

[dependencies]
chrono = { version = "0.4", default-features = false }
smallvec = "1"
nom = "7"
hex = "0.4"
