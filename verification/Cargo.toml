[package]
name = "etcd_auth"
version = "0.1.0"
edition = "2021"
publish = false

[dependencies]
futures = "0.1"
hyper = "0.11"
serde = { version = "1", features = ["derive"] }
serde_json = "1"
