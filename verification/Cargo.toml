[package]
name = "ipc-rpc"
version = "0.1.0"
edition = "2021"
publish = false

[dependencies]
futures = "=0.3.34"
ipc-channel = "=0.20.2"
log = "=0.4.35"
schemars = "=1.2.3"
serde = { version = "=1.0.229", features = ["derive"] }
serde_json = "=1.0.154"
thiserror = "=2.0.21"
tokio = { version = "=1.54.1", features = ["full"] }
uuid = { version = "=1.29.0", features = ["v4", "serde"] }
