[package]
name = "nemsys"
version = "0.1.0"
edition = "2021"
publish = false

[dependencies]
anyhow = "1"
log = "0.4"
serde = { version = "1", features = ["derive"] }
serde_json = "1"
simplelog = "0.12"
clap = { version = "4", features = ["derive"] }

[dev-dependencies]
