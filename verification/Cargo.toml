[package]
name = "indra_beaglebone"
version = "0.1.0"
edition = "2021"
publish = false

[dependencies]
chrono = { version = "0.4", features = ["serde"] }
futures-util = "0.3"
lazy_static = "1"
log = { version = "0.4", features = ["std"] }
rumqttc = { version = "0.24", default-features = false }
serde = { version = "1", features = ["derive"] }
serde_json = "1"
sysfs_gpio = "0.6"
tokio = { version = "1", features = ["full"] }
tokio-socketcan = "0.3"
tokio-tungstenite = "0.21"
toml = "0.8"
