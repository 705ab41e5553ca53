[package]
name = "rlight"
version = "0.1.0"
edition = "2021"
publish = false

[dependencies]
at_debug = "*"
confy = "*"
serde = { version = "1", features = ["derive"] }
serde_derive = "1"
v4l = "*"
