[package]
name = "repoweave"
version = "0.1.0"
edition = "2021"
publish = false

[dependencies]
anyhow = "1"
clap = { version = "4", features = ["derive"] }
clap_complete = "4"
schemars = "0.8"
serde = { version = "1", features = ["derive"] }
serde_json = "1"
