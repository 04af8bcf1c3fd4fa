[package]
name = "pis_aller"
version = "0.1.0"
edition = "2021"
publish = false

[dependencies]
colored = "2"
crossbeam-queue = "0.3"
serde = { version = "1", features = ["derive"] }
tokio = { version = "1", features = ["fs", "macros", "rt", "sync", "time"] }
uuid = { version = "1", features = ["v4"] }
