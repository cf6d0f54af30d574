[package]
name = "wolf_power_up"
version = "0.1.0"
edition = "2021"
publish = false

[dependencies]
secret-cosmwasm-std = "*"
secret-toolkit = { version = "*", default-features = false, features = ["permit", "snip721", "storage"] }
base64 = "0.13"
serde = { version = "1", features = ["derive"] }
serde_json = "1"
schemars = "0.8"
sha2 = "0.10"
