[package]
name = "request_id"
version = "0.1.0"
edition = "2021"
publish = false

[dependencies]
arrayvec = { version = "0.5", features = ["serde"] }
futures = "0.3"
http = "0.2"
hyper = "0.13"
log = "0.4"
pretty_env_logger = "0.4"
serde = { version = "1", features = ["derive"] }
serde_derive = "1"
serde_json = "1"
tokio = { version = "0.2", features = ["full"] }
tower-service = "0.3"
uuid = { version = "0.8", features = ["v4"] }
warp = { version = "0.2", default-features = false }
