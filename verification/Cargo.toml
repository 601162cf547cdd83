[package]
name = "forgen"
version = "0.1.0"
edition = "2021"
publish = false

[dependencies]
anyhow = "=1.0.104"
cargo_metadata = "=0.23.1"
clap = { version = "=4.6.7", features = ["derive"] }
notify-debouncer-mini = "=0.7.0"

[dev-dependencies]
serde_json = "=1.0.151"
