[package]
name = "random_image_server"
version = "0.1.0"
edition = "2021"
publish = false

[dependencies]
anyhow = "1"
http-body-util = "0.1"
hyper = { version = "1", features = ["full"] }
hyper-util = { version = "0.1", features = ["full"] }
log = "0.4"
md5 = "0.7"
mime_guess = "2"
rand = "0.9"
reqwest = "0.12"
serde = { version = "1", features = ["derive"] }
tempdir = "0.3"
tokio = { version = "1", features = ["full"] }
toml = "0.8"
tracing = "0.1"
tracing-subscriber = "0.3"
url = "2"
uuid = { version = "1", features = ["v4"] }
walkdir = "2"
