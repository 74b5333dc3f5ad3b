[package]
name = "core_api"
version = "0.1.0"
edition = "2021"
publish = false

[dependencies]
sanitize-filename = "*"
tokio = { version = "1", features = ["full"] }
reqwest = { version = "*", default-features = false }
regex = "*"
serde = { version = "*", features = ["derive"] }
serde_json = "*"
once_cell = "*"
