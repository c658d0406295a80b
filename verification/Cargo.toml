[package]
name = "canvas_lms_api"
version = "0.1.0"
edition = "2021"
publish = false

[dependencies]
url = "2"
reqwest = { version = "0.12", default-features = false, features = ["json"] }
tokio = { version = "1", features = ["rt-multi-thread", "macros"] }
serde = { version = "1", features = ["derive"] }
serde_json = "1"
chrono = { version = "0.4", default-features = false, features = ["serde", "clock", "std"] }
thiserror = "1"
futures = "0.3"
tracing = "0.1"
