[package]
name = "hyako"
version = "0.1.0"
edition = "2021"
publish = false

[dependencies]
parking_lot = "0.12"
glam = "*"
bytemuck = "*"

[dev-dependencies]
uuid = { version = "1", features = ["v4"] }
