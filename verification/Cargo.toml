[package]
name = "bridge_sim"
version = "0.1.0"
edition = "2021"
publish = false

[dependencies]
sha2 = "0.10"
futures = "0.3"
serde = "1"
serde_json = "1"
bcs = "*"
anyhow = "1"
