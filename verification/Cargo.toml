[package]
name = "fireboard2mqtt"
version = "0.1.0"
edition = "2021"
publish = false

[dependencies]
anyhow = "1"
bytes = "1"
chrono = { version = "0.4", features = ["serde"] }
compact_str = { version = "0.8", features = ["serde"] }
constcat = "*"
env_logger = "*"
human_bytes = "*"
log = "0.4"
memory-stats = "*"
reqwest = { version = "0.12", default-features = false, features = ["json", "rustls-tls"] }
rumqttc = "0.24"
serde = { version = "1", features = ["derive"] }
serde_json = "1"
serde_repr = "0.1"
tokio = { version = "1", features = ["full"] }
twelf = "*"
url = "2"
