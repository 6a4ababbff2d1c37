[package]
name = "job_middleware"
version = "0.1.0"
edition = "2021"
publish = false

[dependencies]
metrics = "*"
tower = "*"
futures = "*"
pin-project-lite = "*"

[dev-dependencies]
metrics-util = "*"
