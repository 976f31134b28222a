[package]
name = "cyclonedx_core"
version = "0.1.0"
edition = "2021"
publish = false

[dependencies]
log = "0.4"
regex = "1"
serde = { version = "1", features = ["derive"] }
thiserror = "1"
toml = "0.5"
