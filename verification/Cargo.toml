[package]
name = "wifi_provisioner"
version = "0.1.0"
edition = "2021"
publish = false

[dependencies]
heapless = "0.8"
uuid = "1"
anyhow = "1"
tokio = { version = "1", features = ["rt-multi-thread", "macros", "time"] }
dialoguer = "0.11"
btleplug = "0.11"
