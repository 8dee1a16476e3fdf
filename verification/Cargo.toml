[package]
name = "uuid_param"
version = "0.1.0"
edition = "2021"
publish = false

[dependencies]
rocket = { version = "0.5", default-features = false }
uuid = "0.6"
