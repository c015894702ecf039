[package]
name = "mdns_visibility"
version = "0.1.0"
edition = "2021"
publish = false

[dependencies]
anyhow = "1"
mdns-sd = "*"
serde = { version = "1", features = ["derive"] }
sys_metrics = "*"
tokio = { version = "1", features = ["sync", "macros", "rt"] }
tokio-util = "0.7"
ts-rs = "*"
