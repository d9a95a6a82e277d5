[package]
name = "multipart_error"
version = "0.1.0"
edition = "2021"
publish = false

[dependencies]
httparse = "1"
mime = "0.3"
serde_json = "1"
