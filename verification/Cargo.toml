[package]
name = "dev_lens_relay"
version = "0.1.0"
edition = "2021"
publish = false

[dependencies]
serde_json = "1"
serde = { version = "1", features = ["derive"] }
axum = { version = "0.7", features = ["ws"] }
tower-http = { version = "0.5", features = ["cors"] }
tokio = { version = "1", features = ["net", "rt-multi-thread", "macros"] }
futures = "0.3"
hostname = "0.4"
