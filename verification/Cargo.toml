[package]
name = "tower_game"
version = "0.1.0"
edition = "2021"
publish = false

[dependencies]
rand = "0.8"
crossterm = { version = "0.27", features = ["event-stream"] }
tokio = { version = "1", features = ["rt", "time", "macros"] }
futures = "0.3"
