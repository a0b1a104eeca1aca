[package]
name = "cep18"
version = "0.1.0"
edition = "2021"
publish = false

[dependencies]
casper-types = "=4.0.2"
casper-contract = { version = "=4.0.0", default-features = false }
casper-event-standard = "=0.5.0"
hex = "=0.4.3"
