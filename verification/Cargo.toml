[package]
name = "pool_server"
version = "0.1.0"
edition = "2021"
publish = false

[dependencies]
prost = "0.13"
rand = "0.8"
tokio = { version = "1", features = ["macros", "rt-multi-thread"] }
tonic = "0.12"
