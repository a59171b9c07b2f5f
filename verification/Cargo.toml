[package]
name = "pingpong"
version = "0.1.0"
edition = "2021"
publish = false

[dependencies]
rand = "0.7"
serde = { version = "1", features = ["derive"] }
serde_json = "1"
tokio = { version = "1", features = ["full"] }
async-std = "1"
crossterm = "0.27"
ggez = "0.5"
