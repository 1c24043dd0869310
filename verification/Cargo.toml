[package]
name = "elevenlabs_rs"
version = "0.7.0"
edition = "2021"
publish = false

[dependencies]
base64 = "0.22"
hmac = "0.12"
sha2 = "0.10"
reqwest = { version = "0.12", default-features = false, features = ["json", "multipart", "stream"] }
serde = { version = "1", features = ["derive"] }
serde_json = "1"
tokio = { version = "1", features = ["rt", "macros", "sync", "time", "net"] }
tokio-tungstenite = "0.26"
futures-util = { version = "0.3", features = ["sink"] }
async-stream = "0.3"
bytes = "1"
strum = { version = "0.26", features = ["derive"] }
bytemuck = "1"
dasp = { version = "0.11", features = ["signal", "interpolate", "interpolate-linear"] }
