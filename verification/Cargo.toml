[package]
name = "meta_fuse_driver"
version = "0.1.0"
edition = "2021"
publish = false

[dependencies]
base64 = "*"
env_logger = "*"
fuser = "*"
libc = "*"
log = "*"
serde = { version = "*", features = ["derive"] }
reqwest = { version = "*", default-features = false, features = ["blocking", "json"] }
