[package]
name = "cargo_metadata"
version = "0.1.0"
edition = "2021"
publish = false

[dependencies]
serde = { version = "1", features = ["derive"] }
serde_json = "1"
semver = { version = "1", features = ["serde"] }
camino = { version = "1", features = ["serde1"] }
cargo-platform = "*"
