[package]
name = "colossus"
version = "0.1.0"
edition = "2021"
publish = false

[dependencies]
anyhow = "1"
clap = { version = "4", features = ["derive"] }
serde = { version = "1", features = ["derive"] }
serde_json = "1"
serde_yml = "*"
thiserror = "*"
tracing = "0.1"
tracing-subscriber = "0.3"

[dev-dependencies]
regex = "1"
