[package]
name = "rust_tdlib"
version = "0.1.0"
edition = "2021"
publish = false

[dependencies]
async-trait = "*"
log = "*"
serde = { version = "*", features = ["derive"] }
serde_json = "*"
tokio = { version = "*", features = ["sync", "time", "rt-multi-thread", "macros"] }
uuid = { version = "*", features = ["v4"] }
