[package]
name = "presence_bridge"
version = "0.1.0"
edition = "2021"
publish = false

[dependencies]
discord-rich-presence = "*"
serde_json = "1"
serde = { version = "1", features = ["derive"] }
axum = "0.6"
socketioxide = "0.8"
tokio = { version = "1", features = ["rt-multi-thread", "macros", "sync"] }
tracing = "0.1"
tracing-subscriber = { version = "0.3", features = ["env-filter"] }
notify = "6"
notify-debouncer-mini = "0.4"
