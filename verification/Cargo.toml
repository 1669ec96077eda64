[package]
name = "app_volume"
version = "0.1.0"
edition = "2021"
publish = false

[dependencies]
libpulse-binding = "2"
tokio = { version = "1", features = ["sync", "time"] }
once_cell = "1"
tracing = "0.1"
