[package]
name = "warp_app"
version = "0.1.0"
edition = "2021"
publish = false

[dependencies]
anyhow = "1"
uuid = { version = "1", features = ["v4"] }
thiserror = "2"
