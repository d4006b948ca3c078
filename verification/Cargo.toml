[package]
name = "gw_web3_indexer"
version = "0.1.0"
edition = "2021"
publish = false

[dependencies]
anyhow = "=1.0.104"
ckb-hash = "=1.1.1"
ckb-types = "=1.1.4"
env_logger = "=0.11.11"
ethabi = "=18.0.0"
faster-hex = "=1.0.0"
jsonrpc-core = "=18.0.0"
log = "=0.4.34"
rust_decimal = "=1.43.0"
sentry = { version = "=0.49.3", default-features = false }
sentry-log = "=0.49.3"
serde = { version = "=1.0.229", features = ["derive"] }
serde_json = "=1.0.154"
sha3 = "=0.10.9"
smol = "=2.0.2"
sqlx = { version = "=0.9.0", default-features = false, features = ["postgres", "runtime-async-std", "rust_decimal", "bigdecimal", "chrono"] }
thiserror = "=2.0.21"
toml = "=1.1.8"
websocket = { version = "=0.27.1", default-features = false, features = ["sync"] }
