[package]
name = "hazelnut_service"
version = "0.1.0"
edition = "2021"
publish = false

[dependencies]
serde_json = "1"
regex = "1"
dirs = "*"
libc = "0.2"
ureq = { version = "2", features = ["json"] }
