[package]
name = "vote42"
version = "0.1.0"
edition = "2021"
publish = false

[dependencies]
chrono = "0.4"
serde = { version = "1", features = ["derive"] }
serde_json = "1"
dirs = "*"
rpassword = "*"
ssh2 = "*"
tokio = { version = "1", features = ["rt-multi-thread", "net", "io-util"] }
