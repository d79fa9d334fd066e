[package]
name = "modem_exporter"
version = "0.1.0"
edition = "2021"
publish = false

[dependencies]
anyhow = "1"
prometheus-client = "0.22"
quick-xml = { version = "0.31", features = ["serialize"] }
reqwest = { version = "0.11", default-features = false }
serde = { version = "1", features = ["derive"] }
tokio = { version = "1", features = ["macros", "rt"] }
warp = { version = "0.3", default-features = false }
