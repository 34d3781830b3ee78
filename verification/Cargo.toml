[package]
name = "ringcon_osc"
version = "0.1.0"
edition = "2021"
publish = false

[dependencies]
anyhow = "=1.0.104"
crossbeam-channel = "=0.5.17"
futures = "=0.3.34"
ipc-channel = { version = "=0.23.0", features = ["async"] }
joycon-rs = "=0.6.3"
serde = { version = "=1.0.229", features = ["derive"] }
tokio = { version = "=1.53.2", features = ["io-util", "macros", "process", "rt-multi-thread", "sync"] }
