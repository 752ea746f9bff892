[package]
name = "task_sync"
version = "0.1.0"
edition = "2021"
publish = false

[dependencies]
url = "2"
serde_json = { version = "1", features = ["preserve_order"] }
serde = { version = "1", features = ["derive"] }
tiny_http = "0.8"
anyhow = "1"
log = "0.4"
