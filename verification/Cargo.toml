[package]
name = "git_audit"
version = "0.1.0"
edition = "2021"
publish = false

[dependencies]
secp256k1 = "*"
tiny-keccak = { version = "*", features = ["keccak"] }
ethabi = "*"
ethereum-tx-sign = "*"
serde = { version = "*", features = ["derive"] }
serde_json = "*"
web3 = { version = "*", default-features = false, features = ["http"] }
tokio = { version = "*", features = ["rt"] }
git2 = { version = "*", default-features = false }
clap = "*"
dirs = "*"
log = "*"
env_logger = "*"
chrono = { version = "*", features = ["serde"] }
