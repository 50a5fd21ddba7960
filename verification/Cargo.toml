[package]
name = "milky"
version = "0.1.0"
edition = "2021"
publish = false

[dependencies]
url = "2"
serde = { version = "1", features = ["derive"] }
serde_json = "1"
thiserror = "2"
log = "0.4"
pretty_env_logger = "0.5"
ansi_term = "0.12"
chrono = "0.4"
futures-util = "0.3"
tokio = { version = "1", features = ["macros", "rt-multi-thread", "net", "signal", "sync", "time"] }
tokio-tungstenite = "0.27"
reqwest = { version = "0.12", default-features = false, features = ["json"] }
axum = "0.8"
