[package]
name = "term_bridge"
version = "0.1.0"
edition = "2021"
publish = false

[dependencies]
base64 = "*"
axum = { version = "*", features = ["ws"] }
tokio = { version = "*", features = ["rt-multi-thread", "macros", "net", "sync"] }
futures = "*"
portable-pty = "*"
tower-http = { version = "*", features = ["fs"] }
