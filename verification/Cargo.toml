[package]
name = "kodi_remote"
version = "0.1.0"
edition = "2021"
publish = false

[dependencies]
base64 = "0.13"
rand = "0.8"
serde = { version = "1", features = ["derive"] }
serde_json = { version = "1", features = ["preserve_order"] }
serde_yaml = "0.9"
reqwest = { version = "0.11", default-features = false }
tokio = { version = "1", features = ["macros", "rt-multi-thread", "time"] }
