[package]
name = "yamc"
version = "0.1.0"
edition = "2021"
publish = false

[dependencies]
async-std = { version = "1", features = ["attributes"] }
crossterm = { version = "0.22", features = ["event-stream"] }
futures = "0.3"
futures-timer = "3"
mpris = "1.1"
ron = "0.7"
serde = { version = "1", features = ["derive"] }
