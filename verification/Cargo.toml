[package]
name = "polybot"
version = "0.2.0"
edition = "2021"
publish = false

[dependencies]
anyhow = "=1.0.104"
dashmap = "=6.2.1"
dotenv = "0.15"
eframe = { version = "=0.31.1", default-features = false, features = ["glow", "default_fonts", "x11"] }
futures = "=0.3.34"
lazy_static = "1"
rust_decimal = "=1.43.0"
serde = { version = "=1.0.229", features = ["derive"] }
serde_json = "=1.0.154"
tokio = { version = "=1.54.1", features = ["full"] }
tracing = "0.1"
tracing-subscriber = { version = "0.3", features = ["env-filter", "chrono"] }
