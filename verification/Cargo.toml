[package]
name = "fastly_http_client"
version = "0.1.0"
edition = "2021"
publish = false

[dependencies]
aws-smithy-runtime-api = { version = "=1.19.0", features = ["client"] }
aws-smithy-types = "=1.8.1"
fastly = "=0.13.1"
futures = "=0.3.34"
http = "=1.5.0"
tokio = { version = "=1.53.2", features = ["sync", "time", "rt"] }
