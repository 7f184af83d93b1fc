[package]
name = "harmonyscale"
version = "0.1.0"
edition = "2021"
publish = false

[dependencies]
base64 = "0.22"
boringtun = { version = "*", default-features = false }
rand = "0.8"
serde = { version = "1", features = ["derive"] }
serde_json = "1"
libc = "0.2"
