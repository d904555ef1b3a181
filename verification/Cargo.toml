[package]
name = "linera_rpc"
version = "0.1.0"
edition = "2021"
publish = false

[dependencies]
bincode = "1.3"
ed25519-dalek = "2.1"
k256 = "0.13"
thiserror = "1.0"
tonic = { version = "0.12", default-features = false }
