[package]
name = "bottlerocket_agents"
version = "0.1.0"
edition = "2021"
publish = false

[dependencies]
serde = { version = "=1.0.229", features = ["derive"] }
serde_json = { version = "=1.0.154", features = ["preserve_order"] }
serde_yaml = "=0.9.34"
toml = "=0.5.11"
base64 = "=0.21.7"
sha2 = "0.10"
hex = "0.4"
uuid = { version = "1", features = ["v4"] }
