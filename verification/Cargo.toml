[package]
name = "triplet"
version = "0.1.0"
edition = "2021"

[dependencies]
lazy_static = "1"
sha2 = "0.10"
uuid = { version = "1", features = ["v4"] }
