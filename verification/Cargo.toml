[package]
name = "branchie"
version = "0.1.0"
edition = "2021"
publish = false

[dependencies]
dirs = "=7.0.0"
git2 = { version = "=0.21.0", features = ["https"] }
keyring = "=4.2.0"
serde = { version = "=1.0.229", features = ["derive"] }
