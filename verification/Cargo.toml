[package]
name = "harrow"
version = "0.1.0"
edition = "2021"
publish = false

[dependencies]
sha1 = "0.10"
base64 = "0.22"
blake3 = { version = "1", features = ["pure"] }
getrandom = "0.3"
http = "1"
slab = "0.4"
serde = { version = "1", features = ["derive"] }
serde_json = "1"
bytes = "1"
http-body-util = "0.1"
tokio = { version = "1", features = ["time", "rt", "macros"] }
tracing = "0.1"
minijinja = "2"
libc = "0.2"
