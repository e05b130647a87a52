[package]
name = "push_rules"
version = "0.1.0"
edition = "2021"
publish = false

[dependencies]
ruma = { version = "=0.8.2", features = ["canonical-json", "client-api", "events"] }
serde_json = "=1.0.154"
