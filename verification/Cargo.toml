[package]
name = "signature_schemes"
version = "0.1.0"
edition = "2021"
publish = false

[dependencies]
amcl = { version = "*", features = ["bls381"] }
rand = "0.5"
