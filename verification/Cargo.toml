[package]
name = "storage_gateway"
version = "0.1.0"
edition = "2021"
publish = false

[dependencies]
aws-config = { version = "*", default-features = false }
aws-sdk-s3 = { version = "*", default-features = false }
serde = { version = "*", features = ["derive"] }
