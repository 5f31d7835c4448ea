[package]
name = "dyncord"
version = "0.1.0"
edition = "2021"
publish = false

[dependencies]
twilight-mention = "*"
twilight-model = "*"
twilight-http = "*"
twilight-gateway = "*"
tokio = { version = "1", features = ["rt-multi-thread", "macros"] }
thiserror = "2"
bitcode = "0.6"
redis = { version = "*", features = ["aio", "tokio-comp", "cluster-async", "connection-manager"] }
