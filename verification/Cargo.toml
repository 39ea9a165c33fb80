[package]
name = "bip300301_enforcer"
version = "0.1.0"
edition = "2021"
publish = false

[dependencies]
async-lock = "=3.4.2"
bdk_chain = "=0.23.4"
bdk_electrum = "=0.24.1"
bdk_esplora = { version = "=0.22.3", features = ["async-https"] }
bdk_wallet = { version = "=3.2.0", features = ["file_store", "keys-bip39"] }
bitcoin = "=0.32.102"
clap = { version = "=4.6.7", features = ["derive"] }
either = "=1.19.0"
futures = "=0.3.34"
hex = "=0.4.3"
http = "=1.5.0"
jsonrpsee = { version = "=0.26.1", features = ["server", "http-client"] }
miette = "=7.6.0"
serde = { version = "=1.0.229", features = ["derive"] }
thiserror = "=2.0.21"
tokio = { version = "=1.54.1", features = ["macros", "net", "rt-multi-thread", "signal", "time"] }
tokio-rusqlite = "=0.8.0"
tonic = "=0.14.6"
tonic-health = "=0.14.6"
tonic-reflection = "=0.14.6"
tower = "=0.5.3"
tower-http = { version = "=0.7.1", features = ["request-id", "trace"] }
tracing = "=0.1.44"
tracing-appender = "=0.2.5"
tracing-subscriber = { version = "=0.3.23", features = ["env-filter"] }
uuid = { version = "=1.29.0", features = ["v4"] }
