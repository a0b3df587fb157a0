[package]
name = "graux_sdk"
version = "0.1.0"
edition = "2021"
publish = false

[dependencies]
ethers-core = "=2.0.14"
ethers-providers = "=2.0.14"
reqwest = { version = "=0.11.27", default-features = false, features = ["gzip"] }
serde = { version = "=1.0.229", features = ["derive"] }
serde_json = "=1.0.154"
thiserror = "=1.0.69"
