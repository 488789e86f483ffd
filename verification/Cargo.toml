[package]
name = "dynamo-run"
version = "0.1.0"
edition = "2021"
publish = false

[dependencies]
anyhow = "=1.0.104"
dynamo-runtime = { version = "=0.2.1", default-features = false }
