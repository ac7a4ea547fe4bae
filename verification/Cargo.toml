[package]
name = "zenvo"
version = "0.1.0"
edition = "2021"
publish = false

[dependencies]
anyhow = "1"
chrono = "0.4"
clap = { version = "4", features = ["derive"] }
colored = "2"
dirs = "5"
reqwest = { version = "0.12", default-features = false, features = ["blocking", "json"] }
semver = "1"
serde = { version = "1", features = ["derive"] }
serde_json = "1"
serde_yaml = "0.9"
sha2 = "0.10"
toml = "0.8"
wait-timeout = "0.2"
walkdir = "2"
