[package]
name = "query_exporter"
version = "0.1.0"
edition = "2021"
publish = false

[dependencies]
prometheus = { version = "*", default-features = false }
tokio-postgres = "*"
deadpool-postgres = "*"
log = "*"
env_logger = "*"
dotenvy = "*"
notify = "*"
notify-debouncer-full = "*"
serde = { version = "*", features = ["derive"] }
tokio = { version = "*", features = ["full"] }
warp = "0.3"
config = { version = "*", default-features = false, features = ["toml"] }
