[package]
name = "energy_monitor"
version = "0.1.0"
edition = "2021"
publish = false

[dependencies]
chrono = { version = "0.4", features = ["serde"] }
clap = { version = "4", features = ["cargo"] }
config = { version = "0.13", default-features = false, features = ["yaml"] }
embedded-graphics = "0.8"
env_logger = "0.10"
lazy_static = "1"
log = "0.4"
reqwest = { version = "0.11", default-features = false }
rppal = "0.14"
rumqttc = { version = "0.23", default-features = false }
serde = { version = "1", features = ["derive"] }
serde_json = "1"
tokio = { version = "1", features = ["full"] }
