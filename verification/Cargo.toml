[package]
name = "ghlog"
version = "0.1.0"
edition = "2021"
publish = false

[dependencies]
anyhow = "=1.0.104"
chrono = { version = "=0.4.45", features = ["serde"] }
clap = { version = "=4.6.7", features = ["derive"] }
reqwest = { version = "=0.13.5", features = ["blocking", "query"] }
serde = { version = "=1.0.229", features = ["derive"] }
serde_json = "=1.0.154"
tera = "=2.4.0"
