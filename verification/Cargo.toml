[package]
name = "account_ledger"
version = "0.1.0"
edition = "2021"
publish = false

[dependencies]
aws-config = "*"
aws-sdk-dynamodb = "*"
bigdecimal = { version = "*", features = ["serde"] }
http = "*"
lambda_http = "*"
lambda_runtime = "*"
log = "*"
serde = { version = "*", features = ["derive"] }
serde_json = "*"
simple_logger = "*"
tokio = { version = "*", features = ["macros", "rt-multi-thread"] }
