[package]
name = "eva_runtime"
version = "0.1.0"
edition = "2021"
publish = false

[dependencies]
serde = { version = "=1.0.229", features = ["derive"] }
serde_json = "=1.0.154"
sha2 = "0.10"
syn = { version = "=2.0.119", features = ["full"] }
