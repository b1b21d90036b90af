[package]
name = "directory_types"
version = "0.1.0"
edition = "2021"
publish = false

[dependencies]
bincode = "1"
uuid = { version = "1", features = ["v3"] }
chrono = { version = "0.4", features = ["serde"] }
base64 = "0.22"
image = { version = "0.24", default-features = false, features = ["jpeg"] }
