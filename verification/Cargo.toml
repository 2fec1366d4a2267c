[package]
name = "trading_system"
version = "0.1.0"
edition = "2021"
publish = false

[dependencies]
rust_decimal = "1"
rust_decimal_macros = "1"
chrono = "0.4"
uuid = { version = "1", features = ["v4"] }
yata = "0.7"
circular-queue = "0.2"
tokio = { version = "1", features = ["rt-multi-thread", "macros", "sync", "time"] }
crossbeam = "0.8"
crossbeam-queue = "0.3"
dashmap = "6"
ftlog = "0.2"
anyhow = "1"
thiserror = "1"
derive_builder = "0.20"
serde = { version = "1", features = ["derive"] }
serde_json = "1"
csv = "1"
zip = { version = "*", default-features = false, features = ["deflate"] }
reqwest = { version = "0.12", default-features = false }
clickhouse = { version = "*", default-features = false }
clap = { version = "4", features = ["derive"] }
config = { version = "*", default-features = false, features = ["toml"] }
ractor = "*"
rayon = "1"
futures = "0.3"
