[package]
name = "image_store"
version = "0.1.0"
edition = "2021"
publish = false

[dependencies]
image = "*"
nanoid = "*"
axum = "*"
axum_typed_multipart = "*"
dotenv = "*"
tokio = { version = "*", features = ["full"] }
tokio-util = { version = "*", features = ["io"] }
tracing = "*"
tracing-subscriber = { version = "*", features = ["env-filter"] }
