[package]
name = "net_sim"
version = "0.1.0"
edition = "2021"
publish = false

[dependencies]
env_logger = "0.11"
reqwest = { version = "0.11", features = ["json"] }
serde = { version = "1", features = ["derive"] }
tokio = { version = "1", features = ["full"] }
warp = "0.3"

[dev-dependencies]
http = "0.2"
