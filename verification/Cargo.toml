[package]
name = "ark_indexer"
version = "0.1.0"
edition = "2021"
publish = false

[dependencies]
aws-config = "1"
aws-sdk-dynamodb = "1"
aws-sdk-kinesis = "1"
dotenv = "0.15"
log = "0.4"
reqwest = { version = "0.12", features = ["json"] }
serde_json = "1"
simple_logger = "*"
tokio = { version = "1", features = ["macros", "rt-multi-thread", "signal", "time"] }
