[package]
name = "obs_remote_lambda"
version = "0.1.0"
edition = "2021"
publish = false

[dependencies]
serde_json = "=1.0.151"
aws-config = { version = "=1.12.0", default-features = false, features = ["rt-tokio"] }
aws-sdk-ssm = { version = "=1.128.0", default-features = false, features = ["rt-tokio"] }
aws-sdk-cloudwatchlogs = { version = "=1.156.0", default-features = false, features = ["rt-tokio"] }
aws-smithy-runtime-api = "=1.19.0"
aws_lambda_events = { version = "=1.2.0", default-features = false, features = ["apigw"] }
http = "=1.5.0"
lambda_http = "=1.3.1"
lambda_runtime = "=1.4.0"
tokio = { version = "=1.53.2", features = ["macros", "rt-multi-thread", "time"] }
tracing-subscriber = "=0.3.23"
