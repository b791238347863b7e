[package]
name = "bt_file_cache"
version = "0.1.0"
edition = "2021"
publish = false

[dependencies]
base64 = "0.22"
bt_logger = "*"
once_cell = "1"
reqwest = { version = "0.12", features = ["blocking"] }
sha3 = "0.10"

[dev-dependencies]
regex = "1"
