[package]
name = "soundsproxy"
version = "0.1.0"
edition = "2021"
publish = false

[dependencies]
chrono = "0.4"
futures = "0.3"
hhmmss = "0.1"
hyper = { version = "0.14", features = ["server", "http1", "tcp"] }
reqwest = { version = "0.11", features = ["json"] }
rss = "2"
serde = { version = "1", features = ["derive"] }
serde_json = "1"
tokio = { version = "1", features = ["macros", "rt-multi-thread", "signal"] }
