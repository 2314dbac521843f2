[package]
name = "color_mixer"
version = "0.1.0"
edition = "2021"
publish = false

[dependencies]
axum = "*"
env_logger = "*"
rgb = { version = "*", features = ["serde"] }
serde = { version = "*", features = ["derive"] }
thiserror = "*"
tokio = { version = "*", features = ["rt-multi-thread", "macros", "net", "sync"] }
tower-http = { version = "*", features = ["fs"] }
