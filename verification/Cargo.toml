[package]
name = "analytics_core"
version = "0.1.0"
edition = "2021"
publish = false

[dependencies]
chrono = "0.4"
lazy_static = "1"
serde = { version = "1", features = ["derive"] }
serde_json = "1"
thiserror = "1"
uaparser = "*"
url = { version = "2", features = ["serde"] }
