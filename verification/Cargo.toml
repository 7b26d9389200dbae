[package]
name = "funge_core"
version = "0.1.0"
edition = "2021"
publish = false

[dependencies]
rand = "0.8"
crossterm = "0.27"
serde = { version = "1", features = ["derive"] }
serde_json = "1"
rlua = "0.19"
uuid = { version = "1", features = ["serde", "v4"] }
