[package]
name = "wifikey"
version = "0.1.0"
edition = "2021"
publish = false

[dependencies]
kcp = "0.5"
md-5 = "0.10"
rand = "0.8"
anyhow = "1"
chrono = "0.4"
log = "0.4"
mdns-sd = "*"
serde = { version = "1", features = ["derive"] }
serialport = { version = "4", default-features = false }
toml = "0.8"
