[package]
name = "franz"
version = "0.1.0"
edition = "2021"
publish = false

[dependencies]
parse-size = "1"
serde = { version = "1", features = ["derive"] }
serde_json = "1"
toml = "0.8"
thiserror = "2"
tokio = { version = "1", features = ["full"] }
tokio-util = { version = "0.7", features = ["codec", "rt"] }
tokio-stream = "0.1"
futures-util = { version = "0.3", features = ["sink"] }
axum = { version = "0.8", features = ["ws"] }
clap = { version = "4", features = ["derive"] }
tracing = "0.1"
tracing-subscriber = "0.3"
disk-chan = "*"
