[package]
name = "signals"
version = "0.1.0"
edition = "2021"
publish = false

[dependencies]
uuid = { version = "=1.29.0", features = ["serde"] }
serde = { version = "=1.0.229", features = ["derive"] }
serde_json = "=1.0.154"
jsonrpc-core = "=18.0.0"
chrono = { version = "=0.4.45", features = ["serde"] }
failure = "=0.1.8"
rumqtt = "=0.10.1"
diesel = { version = "=2.3.14", features = ["postgres", "r2d2", "uuid", "chrono", "serde_json"] }
config = "=0.15.27"
