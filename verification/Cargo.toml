[package]
name = "subtitle_sync"
version = "0.1.0"
edition = "2021"
publish = false

[dependencies]
regex = "1"
urldecode = "0.1"
htmlescape = "0.3"
subparse = "0.7"
serde = { version = "1", features = ["derive"] }
serde_json = "1"
chrono = "0.4"
reqwest = { version = "0.12", default-features = false, features = ["rustls-tls"] }
tokio = { version = "1", features = ["rt-multi-thread", "macros"] }
diesel = { version = "2", features = ["sqlite", "r2d2", "chrono"] }
