[package]
name = "slurpgit"
version = "0.1.0"
edition = "2021"
publish = false

[dependencies]
axum = "=0.6.20"
env_logger = "=0.10.2"
http = "=0.2.12"
log = "=0.4.34"
octocrab = "0.32"
serde = { version = "=1.0.229", features = ["derive"] }
tokio = { version = "=1.54.1", features = ["macros", "rt-multi-thread"] }
tower-http = { version = "=0.4.4", features = ["cors"] }
url = "=2.5.8"
