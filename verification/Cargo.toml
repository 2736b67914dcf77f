[package]
name = "echo_mux"
version = "0.1.0"
edition = "2021"
publish = false

[dependencies]
s2n-quic = "1"
tokio = { version = "1", features = ["rt-multi-thread", "macros"] }
bytes = "1"
anyhow = "1"
