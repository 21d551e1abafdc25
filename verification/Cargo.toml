[package]
name = "brushfire"
version = "0.1.0"
edition = "2021"
publish = false

[dependencies]
glob = "0.3"
path-clean = "1"
serde = { version = "1", features = ["derive"] }
serde_json = "1"
chrono = "0.4"
reqwest = { version = "0.12", default-features = false, features = ["json"] }
tokio = { version = "1", features = ["rt", "rt-multi-thread"] }
thiserror = "2"
once_cell = "1"
tempfile = "3"
