[package]
name = "file_center_download"
version = "0.1.0"
edition = "2021"
publish = false

[dependencies]
mongo-file-center = "*"
rocket = "*"
tokio-util = { version = "*", features = ["io"] }

[dev-dependencies]
url-escape = "*"
