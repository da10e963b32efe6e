[package]
name = "open_protocol_device_simulator"
version = "0.1.0"
edition = "2021"
publish = false

[dependencies]
axum = { version = "*", features = ["ws"] }
chrono = "*"
clap = { version = "*", features = ["derive", "env"] }
config = "*"
futures-util = "*"
r2d2 = "*"
r2d2_sqlite = { version = "*", features = ["bundled"] }
rand = "*"
serde = { version = "*", features = ["derive"] }
serde_json = "*"
tokio = { version = "*", features = ["macros", "rt-multi-thread", "net", "sync", "time"] }
tokio-util = { version = "*", features = ["codec"] }
tower-http = { version = "*", features = ["cors"] }
