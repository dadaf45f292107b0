[package]
name = "xpvcc"
version = "0.1.0"
edition = "2021"
publish = false

[dependencies]
actix-web = "=4.18.1"
once_cell = "=1.21.4"
open = "=5.4.5"
rand = "=0.8.8"
reqwest = { version = "=0.11.27", features = ["gzip"] }
serde = { version = "=1.0.229", features = ["derive"] }
serde_json = "=1.0.154"
sysinfo = "=0.29.11"
tempfile = "=3.27.0"
uuid = { version = "=1.29.0", features = ["v4", "serde"] }
