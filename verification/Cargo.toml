[package]
name = "downstage"
version = "0.1.0"
edition = "2021"
publish = false

[dependencies]
chromiumoxide_cdp = "*"
chromiumoxide_types = "*"
futures = "0.3"
http = "1"
regex = "1"
serde_json = "1"
thiserror = "*"
tokio = { version = "1", features = ["io-util", "macros", "net", "process", "rt-multi-thread", "sync", "time"] }
tokio-websockets = { version = "*", features = ["client", "fastrand", "sha1_smol"] }
tracing = "0.1"
