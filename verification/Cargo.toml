[package]
name = "testnet_orchestrator"
version = "0.1.0"
edition = "2021"
publish = false

[dependencies]
serde_json = "*"
subxt = "*"
tokio = { version = "*", features = ["macros", "process", "rt-multi-thread", "time"] }
