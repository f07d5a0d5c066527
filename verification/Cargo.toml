[package]
name = "rm_simulator"
version = "0.1.0"
edition = "2021"
publish = false

[dependencies]
anyhow = "1"
miniz_oxide = "*"
serde = { version = "1", features = ["derive"] }
serde_json = "1"
thiserror = "*"
