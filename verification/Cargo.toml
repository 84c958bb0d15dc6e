[package]
name = "rust_auth_demo"
version = "0.1.0"
edition = "2021"
publish = false

[dependencies]
rocket = { version = "0.5", features = ["json"] }
sqlx = { version = "0.7", default-features = false, features = ["runtime-tokio", "postgres"] }
redis = { version = "0.23", features = ["aio", "tokio-comp"] }
serde = { version = "1", features = ["derive"] }
uuid = { version = "1", features = ["v4"] }
unicode-segmentation = "1"
