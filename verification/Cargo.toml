[package]
name = "ping_viewer_next"
version = "0.1.0"
edition = "2021"
publish = false

[dependencies]
actix = "0.13"
actix-web = "4"
actix-web-actors = "4"
bluerobotics-ping = "*"
chrono = { version = "0.4", features = ["serde"] }
foxglove = "*"
mcap = "*"
regex = "1"
serde = { version = "1", features = ["derive"] }
serde_json = "1"
tokio = { version = "1", features = ["full"] }
tokio-serial = { version = "5", default-features = false }
tracing = "0.1"
udp-stream = "*"
uuid = { version = "1", features = ["serde"] }
