[package]
name = "chain_genesis"
version = "0.1.0"
edition = "2021"
publish = false

[dependencies]
cbor_event = "=1.0.1"
num-traits = "0.2"
num-derive = "0.4"
strum = "0.26"
strum_macros = "0.26"
lazy_static = "1"
serde = { version = "1", features = ["derive"] }
