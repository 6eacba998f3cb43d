[package]
name = "request_dispatch"
version = "0.1.0"
edition = "2021"
publish = false

[dependencies]
reqwest = { version = "0.12", default-features = false, features = ["cookies", "gzip", "brotli", "deflate", "zstd"] }
once_cell = "1"
log = "0.4"
serde = { version = "1", features = ["derive"] }
