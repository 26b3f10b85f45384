[package]
name = "cashier"
version = "0.1.0"
edition = "2021"
publish = false

[dependencies]
epoch-timestamp = "*"
redis = "*"
tokio = { version = "1", features = ["rt-multi-thread", "macros", "time"] }
aws-config = "*"
aws-sdk-dynamodb = "*"
