[package]
name = "oneshot_invoker"
version = "0.1.0"
edition = "2021"
publish = false

[dependencies]
tower-service = "*"
