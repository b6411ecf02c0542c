[package]
name = "xcontest_feed"
version = "0.1.0"
edition = "2021"
publish = false

[dependencies]
chrono = "0.4"
humantime = "2"
iso8601-duration = "0.2"
regex = "1"
reqwest = { version = "0.12", features = ["blocking", "json"] }
rss = "2"
serde = { version = "1", features = ["derive"] }
serde_json = "1"
serde_yaml = "0.9"
thiserror = "1"
