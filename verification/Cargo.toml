[package]
name = "backrun"
version = "0.1.0"
edition = "2021"
publish = false

[dependencies]
alloy = { version = "*", default-features = false, features = ["provider-ipc", "rpc-types-eth"] }
tokio = { version = "*", features = ["macros", "rt-multi-thread", "time", "sync"] }
clap = { version = "*", features = ["derive", "env"] }
serde_json = "*"
