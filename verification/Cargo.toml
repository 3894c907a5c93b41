[package]
name = "testrepository_repository"
version = "0.1.0"
edition = "2021"
publish = false

[dependencies]
url = "2"
tokio = { version = "1", features = ["fs", "io-util", "rt"] }
fs_at = "*"
libc = "0.2"
async-trait = "0.1"
