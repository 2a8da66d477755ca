[package]
name = "update_engine"
version = "0.1.0"
edition = "2021"
publish = false

[dependencies]
zip = { version = "*", default-features = false, features = ["deflate"] }
walkdir = "*"
tempfile = "*"
log = "*"
env_logger = "*"
