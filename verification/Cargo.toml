[package]
name = "bleasy"
version = "0.1.0"
edition = "2021"
publish = false

[dependencies]
btleplug = "=0.11.8"
futures = "=0.3.34"
log = "=0.4.35"
stream-cancel = "=0.8.2"
tokio = { version = "=1.54.1", features = ["sync", "rt", "time"] }
tokio-stream = { version = "=0.1.19", features = ["sync"] }
uuid = "=1.29.0"
