[package]
name = "content_type"
version = "0.1.0"
edition = "2021"
publish = false

[dependencies]
image = { version = "0.25", default-features = false }
infer = "0.16"
serde = { version = "1", features = ["derive"] }
tracing = "0.1"
