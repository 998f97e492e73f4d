[package]
name = "peripheral_manager"
version = "0.1.0"
edition = "2021"
publish = false

[dependencies]
uuid = { version = "*", features = ["v4"] }
tokio = { version = "*", features = ["sync", "rt", "rt-multi-thread", "time", "macros"] }
btleplug = "*"
futures = "*"
crossbeam-channel = "*"
anyhow = "*"
