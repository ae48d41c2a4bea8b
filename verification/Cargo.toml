[package]
name = "quotes"
version = "0.1.0"
edition = "2021"
publish = false

[dependencies]
aws_lambda_events = { version = "*", default-features = false, features = ["apigw"] }
http = "*"
lambda_runtime = "*"
log = "*"
openssl = "*"
postgres-openssl = "*"
rust_decimal = { version = "*", features = ["db-tokio-postgres"] }
serde = { version = "*", features = ["derive"] }
serde_json = "*"
simple_logger = "*"
string-builder = "*"
tokio = { version = "*", features = ["macros", "rt-multi-thread"] }
tokio-postgres = "*"
