[package]
name = "pacom"
version = "0.1.0"
edition = "2021"
publish = false

[dependencies]
up-rust = "0.9"
up-transport-mqtt5 = "0.4"
up-transport-vsomeip = "*"
serde = { version = "1", features = ["derive"] }
serde_json = "1"
thiserror = "2"
tokio = { version = "1", features = ["full"] }
async-trait = "0.1"
log = "0.4"
