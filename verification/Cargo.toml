[package]
name = "onetagger_ai"
version = "0.1.0"
edition = "2021"
publish = false

[dependencies]
num_cpus = "*"
reqwest = { version = "*", default-features = false }
tokio = { version = "*", features = ["rt"] }
serde = { version = "*", features = ["derive"] }
serde_json = "*"
log = "*"
anyhow = "*"
