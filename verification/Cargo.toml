[package]
name = "writium"
version = "0.1.0"
edition = "2021"
publish = false

[dependencies]
futures = "0.1"
hyper = "0.11"
log = "0.4"
serde = "1"
serde_json = "1"
serde_qs = "0.4"
