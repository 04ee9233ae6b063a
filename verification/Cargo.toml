[package]
name = "rpc_core"
version = "0.1.0"
edition = "2021"
publish = false

[dependencies]
futures = "0.3"
hex = "0.4"
sha2 = "0.10"
