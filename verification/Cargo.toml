[package]
name = "hamclock"
version = "0.1.0"
edition = "2021"
publish = false

[dependencies]
chrono = "0.4"
tokio = { version = "1", features = ["sync", "rt-multi-thread", "macros", "time", "net"] }
rumqttc = "0.24"
rusqlite = { version = "0.31", features = ["bundled"] }
axum = { version = "0.7", features = ["ws"] }
notify-rust = "4"

[dev-dependencies]
serde_json = "1"
