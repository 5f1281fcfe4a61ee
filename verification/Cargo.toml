[package]
name = "drop-typing"
version = "0.1.0"
edition = "2021"
publish = false

[dependencies]
anyhow = "1"
async-trait = "0.1"
base64 = "0.22"
dirs = "5"
futures-util = { version = "0.3", default-features = false, features = ["sink"] }
hound = "3.5"
reqwest = { version = "0.12", default-features = false, features = ["json"] }
serde = { version = "1", features = ["derive"] }
serde_json = "1"
sherpa-onnx = "*"
tokio = { version = "1", features = ["rt-multi-thread", "macros", "time", "sync"] }
tokio-tungstenite = { version = "0.24", default-features = false, features = ["connect"] }
toml = "0.8"
uuid = { version = "1", features = ["v4"] }
