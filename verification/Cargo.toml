[package]
name = "greentic_demo"
version = "0.1.0"
edition = "2021"
publish = false

[dependencies]
rand = { version = "=0.8.5", features = ["small_rng"] }
url = "2"
uuid = { version = "1", features = ["v4"] }
serde = { version = "1", features = ["derive"] }
serde_json = "1"
clap = { version = "4", features = ["derive"] }
anyhow = "1"
dotenvy = "0.15"
greentic-types = "*"
