[package]
name = "counter_event"
version = "0.1.0"
edition = "2021"
publish = false

[dependencies]
casper-types = "1"
casper-contract = { version = "1", default-features = false }
