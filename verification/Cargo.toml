[package]
name = "easy_bluez"
version = "0.1.0"
edition = "2021"
publish = false

[dependencies]
basic_scheduler = "*"
blurz = "*"
env_logger = "*"
error-chain = "*"
eui48 = "*"
log = "*"
mvdb = "*"
serde = { version = "*", features = ["derive"] }
serde_derive = "*"
serde_json = "*"
uuid = "*"
