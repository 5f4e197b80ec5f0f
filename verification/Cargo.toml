[package]
name = "mpc_kdf"
version = "0.1.0"
edition = "2021"
publish = false

[dependencies]
ethers-core = "=2.0.14"
near-sdk = { version = "=4.1.1", default-features = false }
sha2 = "=0.10.9"
thiserror = "=1.0.69"
