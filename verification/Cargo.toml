[package]
name = "modbus_logger"
version = "0.1.0"
edition = "2021"
publish = false

[dependencies]
anyhow = "1"
chrono = "0.4"
clap = { version = "4", features = ["derive"] }
ron = "*"
rusqlite = "*"
serde = { version = "1", features = ["derive"] }
tokio-modbus = { version = "*", default-features = false, features = ["tcp-sync"] }
