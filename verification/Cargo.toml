[package]
name = "mods_cf"
version = "0.1.0"
edition = "2021"
publish = false

[dependencies]
anyhow = "=1.0.104"
axum = "=0.8.9"
axum-extra = { version = "=0.12.6", features = ["scheme"] }
bytes = "=1.12.1"
chrono = { version = "=0.4.45", features = ["serde"] }
dotenvy = "=0.15.7"
env_logger = "=0.11.11"
http = "=1.5.0"
log = "=0.4.34"
posthog-rs = "=0.27.0"
reqwest = { version = "=0.12.28", default-features = false, features = ["json"] }
serde = { version = "=1.0.229", features = ["derive"] }
serde_json = "=1.0.151"
serde_path_to_error = "=0.1.20"
serde_repr = "=0.1.21"
tokio = { version = "=1.53.2", features = ["rt-multi-thread", "macros", "net"] }
