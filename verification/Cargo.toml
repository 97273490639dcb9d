[package]
name = "axum_casbin"
version = "0.1.0"
edition = "2021"
publish = false

[dependencies]
casbin = { version = "=2.20.0", features = ["cached"] }
tokio = { version = "=1.53.2", features = ["sync", "rt"] }
axum = "=0.8.9"
tower = "=0.5.3"
