[package]
name = "macos_passkey"
version = "0.1.0"
edition = "2021"
publish = false

[dependencies]
futures = "*"
serde = { version = "*", features = ["derive"] }
swift-rs = "*"
tauri = { version = "*", default-features = false }
tokio = { version = "*", features = ["sync"] }
