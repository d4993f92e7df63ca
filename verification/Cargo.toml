[package]
name = "warp_local_ai"
version = "0.1.0"
edition = "2021"
publish = false

[dependencies]
serde = { version = "1", features = ["derive"] }
serde_json = "1"
uuid = { version = "1", features = ["v4"] }
chrono = { version = "0.4", default-features = false, features = ["clock", "std"] }
reqwest = { version = "0.12", default-features = false, features = ["json", "stream"] }
tokio = { version = "1", features = ["rt", "rt-multi-thread"] }
futures = "0.3"
futures-util = "0.3"
async-channel = "2"
anyhow = "1"
