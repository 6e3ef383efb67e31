[package]
name = "horizon_validation"
version = "0.1.0"
edition = "2021"
publish = false

[dependencies]
tari_crypto = "*"
tari_utilities = "*"
log = "0.4"
