[package]
name = "keeper"
version = "0.1.0"
edition = "2021"
publish = false

[dependencies]
anyhow = "1"
chrono = { version = "=0.4.45", features = ["serde"] }
dropshot = "=0.3.0"
getopts = "=0.2.24"
hyper = "=0.13.10"
schemars = { version = "=0.7.6", features = ["chrono"] }
serde = { version = "1", features = ["derive"] }
serde_json = "1"
slog = "=2.8.2"
tokio = { version = "=0.2.25", features = ["full"] }
