[package]
name = "aws-tui"
version = "0.1.0"
edition = "2021"
publish = false

[dependencies]
async-trait = "0.1"
aws-config = "1"
aws-sdk-cloudwatch = "1"
aws-sdk-cloudwatchlogs = "1"
aws-sdk-dynamodb = "1"
aws-sdk-s3 = "1"
aws-smithy-runtime-api = "1"
aws-smithy-types = "1"
chrono = "0.4"
clipboard = "0.5"
color-eyre = "0.6"
config = "0.14"
crossterm = "0.28"
dirs = "5"
futures = "0.3"
ratatui = "0.29"
serde_json = "1"
thiserror = "2"
tokio = { version = "1", features = ["full"] }
