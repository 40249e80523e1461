[package]
name = "rustpbx_media"
version = "0.1.0"
edition = "2021"
publish = false

[dependencies]
anyhow = "*"
async-trait = "*"
futures = "*"
http = "*"
opus = "*"
rand = "0.8"
reqwest = { version = "*", default-features = false, features = ["json"] }
serde = { version = "*", features = ["derive"] }
serde_json = "*"
tokio = { version = "*", features = ["full"] }
tokio-stream = "*"
tokio-tungstenite = "*"
tokio-util = "*"
toml = "*"
url = "*"
urlencoding = "*"
uuid = { version = "*", features = ["v4"] }
