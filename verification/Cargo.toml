[package]
name = "handshake"
version = "0.1.0"
edition = "2021"
publish = false

[dependencies]
base64 = "0.22"
dashmap = "6"
ed25519-dalek = { version = "2", features = ["rand_core"] }
rand = "0.8"
axum = "0.7"
tokio = { version = "1", features = ["full"] }
tower-http = { version = "0.6", features = ["cors"] }
serde = { version = "1", features = ["derive"] }
serde_json = "1"
reqwest = { version = "0.12", default-features = false, features = ["json"] }
