[package]
name = "matrixbot_ezlogin"
version = "0.1.0"
edition = "2021"
publish = false

[dependencies]
rusqlite = { version = "*", features = ["bundled"] }
version-compare = "*"
rand = "*"
tokio = { version = "*", features = ["full"] }
rustyline-async = "*"
scopeguard = "*"
async-stream = "*"
tokio-stream = "*"
eyre = "*"

[dev-dependencies]
tempfile = "*"
