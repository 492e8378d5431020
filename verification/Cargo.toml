[package]
name = "block_submitter"
version = "0.1.0"
edition = "2021"
publish = false

[dependencies]
anyhow = "=1.0.104"
crossbeam-channel = "=0.5.17"
ethers-contract = { version = "=2.0.14", default-features = false, features = ["providers"] }
ethers-core = { version = "=2.0.14", default-features = false }
ethers-providers = { version = "=2.0.14", default-features = false }
log = "=0.4.34"
sqlx = { version = "=0.7.4", default-features = false, features = ["postgres", "runtime-tokio"] }
tokio = { version = "=1.53.2", features = ["rt-multi-thread"] }
