[package]
name = "backend_bridge"
version = "0.1.0"
edition = "2021"
publish = false

[dependencies]
serde = { version = "1", features = ["derive"] }
serde_json = "1"
toml = "0.8"
tauri = { version = "2", default-features = false }
tauri-plugin-http = { version = "2", default-features = false }
