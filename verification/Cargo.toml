[package]
name = "arinc_429"
version = "0.1.5"
edition = "2021"
publish = false

[dependencies]
serde = { version = "1", features = ["derive"] }
