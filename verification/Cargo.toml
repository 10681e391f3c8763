[package]
name = "voltage_iec104"
version = "0.1.0"
edition = "2021"
publish = false

[dependencies]
bytes = "1"
futures = "0.3"
thiserror = "1"
tokio = { version = "1", features = ["net", "time", "sync", "rt", "io-util", "macros"] }
tokio-util = { version = "0.7", features = ["codec"] }
