[package]
name = "trace_hash"
version = "0.1.0"
edition = "2021"

[dependencies]
blake3 = "1"
