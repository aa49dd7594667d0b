[package]
name = "plat_ibkr"
version = "0.1.0"
edition = "2021"
publish = false

[dependencies]
clap = { version = "=4.6.7", features = ["derive"] }
csv = "=1.4.0"
env_logger = "=0.11.11"
ibapi = { version = "2", default-features = false, features = ["sync"] }
serde = { version = "=1.0.229", features = ["derive"] }
serde_json = { version = "=1.0.154", features = ["preserve_order"] }
