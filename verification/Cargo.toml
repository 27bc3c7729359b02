[package]
name = "storage_gateway"
version = "0.1.0"
edition = "2021"
publish = false

[dependencies]
aws-config = "0.4"
aws-sdk-s3 = "0.4"
bytes = "=1.12.1"
dotenv = "=0.15.0"
sqlx = { version = "=0.6.3", default-features = false, features = ["mysql", "runtime-tokio-rustls"] }
tokio = { version = "=1.54.1", features = ["macros", "rt-multi-thread"] }
warp = "=0.3.7"
