[package]
name = "playbook"
version = "0.1.0"
edition = "2021"
publish = false

[dependencies]
base64 = "0.13"
colink = "*"
regex = "1"
serde = { version = "1", features = ["derive"] }
serde_json = "1"
tokio = { version = "1", features = ["sync"] }
toml = "0.5"
