[package]
name = "soehnle"
version = "0.1.0"
edition = "2021"
publish = false

[dependencies]
async-trait = "*"
bluez-async = "*"
chrono = "*"
futures = "*"
tokio = { version = "*", features = ["time"] }
uuid = "*"
