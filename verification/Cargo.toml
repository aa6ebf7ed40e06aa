[package]
name = "sensor_dashboard"
version = "0.1.0"
edition = "2021"
publish = false

[dependencies]
heapless = "=0.7.17"
chrono = "=0.4.45"
rand = "=0.8.8"
uuid = "=1.29.0"
anyhow = "=1.0.104"
log = "=0.4.34"
env_logger = "=0.11.11"
embedded-io = "=0.3.1"
fuga-remo-api = "=0.1.2"
reqwest = { version = "=0.11.27", default-features = false, features = ["blocking", "rustls-tls"] }
