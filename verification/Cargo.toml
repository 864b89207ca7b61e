[package]
name = "bksd"
version = "0.1.0"
edition = "2021"
publish = false

[dependencies]
blake3 = "*"
chrono = "*"
uuid = { version = "*", features = ["v7"] }

[dev-dependencies]
libc = "*"
