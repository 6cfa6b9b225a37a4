[package]
name = "vercel_lambda"
version = "0.2.0"
edition = "2021"
publish = false

[dependencies]
base64 = "=0.22.1"
http = "=0.1.21"
lambda_runtime = "=0.2.1"
log = "=0.4.34"
serde = { version = "=1.0.229", features = ["derive"] }
serde_json = { version = "=1.0.154", features = ["preserve_order"] }
tokio = "=0.1.22"
