[package]
name = "vss_server"
version = "0.1.0"
edition = "2021"
publish = false

[dependencies]
async-trait = "=0.1.92"
aws-config = "=1.13.0"
aws-sdk-dynamodb = "=1.136.0"
base64 = "=0.22.1"
bytes = { version = "=1.12.1", features = ["serde"] }
chrono = "=0.4.45"
form_urlencoded = "=1.2.2"
http-body-util = "=0.1.5"
hyper = { version = "=1.12.0", features = ["server", "http1"] }
hyper-util = { version = "=0.1.21", features = ["tokio", "server"] }
lambda_http = "=1.3.2"
serde = { version = "=1.0.229", features = ["derive"] }
serde_json = "=1.0.154"
tokio = { version = "=1.54.1", features = ["full"] }
toml = "=1.1.8"
