[package]
name = "rgb_utils"
version = "0.1.0"
edition = "2021"
publish = false

[dependencies]
bincode = "=1.3.3"
bitcoin = { version = "=0.32.102", features = ["base64"] }
futures = "=0.3.34"
rgb-ops = { version = "=0.11.1", default-features = false }
serde = { version = "=1.0.229", features = ["derive"] }
tokio = { version = "=1.54.1", features = ["rt", "rt-multi-thread"] }
