[package]
name = "ticker_alerts"
version = "0.1.0"
edition = "2021"
publish = false

[dependencies]
futures = "=0.3.34"
futures-util = "=0.3.34"
rodio = { version = "0.20", default-features = false }
serde = { version = "=1.0.229", features = ["derive"] }
serde_json = "=1.0.154"
tokio = { version = "=1.54.1", features = ["macros", "rt-multi-thread", "sync"] }
tokio-tungstenite = "=0.30.0"
