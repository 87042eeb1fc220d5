[package]
name = "ipc_rs"
version = "0.1.0"
edition = "2021"
publish = false

[dependencies]
libc = "0.2"
nix = "0.26"
serde = "1"
serde_cbor = "0.11"
