[package]
name = "bufd"
version = "0.1.0"
edition = "2021"
publish = false

[dependencies]
brotli-decompressor = "*"
bytes = "1"
flate2 = "1"
http = "1"
http-body = "1"
ring = "0.17"
tokio = { version = "1", features = ["rt", "sync"] }
tracing = "0.1"

[dev-dependencies]
brotli = "*"
