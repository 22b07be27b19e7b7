[package]
name = "device_query"
version = "0.1.0"
edition = "2021"
publish = false

[dependencies]
cudarc = { version = "=0.19.10", default-features = false, features = ["std", "driver", "fallback-dynamic-loading", "cuda-12080"] }
