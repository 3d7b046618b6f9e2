[package]
name = "vibe_cast"
version = "0.1.0"
edition = "2021"
publish = false

[dependencies]
serde = { version = "1", features = ["derive"] }
serde_json = "1"
tokio = { version = "1", features = ["sync", "rt-multi-thread", "macros", "net", "fs", "time"] }
tokio-stream = { version = "0.1", features = ["sync"] }
futures = "0.3"
axum = "0.7"
tower-http = { version = "0.6", features = ["cors", "fs"] }
mime_guess = "2"
local-ip-address = "0.6"
realfft = "3"
