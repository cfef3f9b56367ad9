[package]
name = "signless_ledger"
version = "0.1.0"
edition = "2021"
publish = false

[dependencies]
sails-rs = "0.8.1"
gstd = "1.8"
