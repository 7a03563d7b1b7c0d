[package]
name = "quic_rpc"
version = "0.1.0"
edition = "2021"
publish = false

[dependencies]
futures-lite = "2"
futures-sink = "0.3"
pin-project = "1"
