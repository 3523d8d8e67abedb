[package]
name = "miner_client"
version = "0.1.0"
edition = "2021"
publish = false

[dependencies]
serde = { version = "1", features = ["derive"] }
serde_json = "1"
reqwest = { version = "0.12", default-features = false, features = ["json"] }
tauri = { version = "2", default-features = false }
tauri-plugin-http = { version = "2", default-features = false }
tauri-plugin-process = "2"
tauri-plugin-updater = { version = "2", default-features = false }
