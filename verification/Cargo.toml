[package]
name = "nodes_common"
version = "0.1.0"
edition = "2021"
publish = false

[dependencies]
axum = "*"
tower-http = { version = "*", features = ["set-header"] }
tokio = { version = "*", features = ["macros", "rt", "rt-multi-thread", "signal", "sync"] }
tokio-util = "*"
aws-config = { version = "*", features = ["behavior-version-latest"] }
aws-sdk-secretsmanager = "*"
git-version = "*"
tracing = "*"
