[package]
name = "moon_shadow_photo"
version = "0.1.0"
edition = "2021"
publish = false

[dependencies]
anyhow = "1"
axum = "0.8"
chrono = "0.4"
clap = { version = "4", features = ["derive"] }
crossterm = { version = "0.29", features = ["event-stream"] }
esp-idf-hal = { version = "0.46", default-features = false }
esp-idf-svc = { version = "0.52", default-features = false }
esp-idf-sys = { version = "0.37", default-features = false }
futures = "0.3"
log = "0.4"
ratatui = "0.30"
rumqttc = { version = "0.24", default-features = false }
serde = { version = "1", features = ["derive"] }
serde_json = "1"
tokio = { version = "1", features = ["full"] }
toml = "0.8"
