[package]
name = "feed_ingest"
version = "0.1.0"
edition = "2021"
publish = false

[dependencies]
quick-xml = { version = "0.37", features = ["serialize"] }
rusqlite = { version = "0.32", features = ["bundled"] }
serde = { version = "1", features = ["derive"] }
serde_json = "1"
tauri = { version = "2", default-features = false }
tauri-plugin-http = { version = "2", default-features = false }
