[package]
name = "worker_runtime"
version = "0.1.0"
edition = "2021"
publish = false

[dependencies]
base64 = "0.22"
chrono = { version = "0.4", default-features = false }
tokio = { version = "1", features = ["rt", "macros", "time", "sync"] }
actix-web = { version = "4", default-features = false, features = ["macros"] }
v8 = "0.82"
