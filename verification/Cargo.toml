[package]
name = "dual"
version = "0.1.0"
edition = "2021"
publish = false

[dependencies]
anyhow = "1"
base64 = "*"
ndarray = "*"
num-traits = "*"
serde = { version = "1", features = ["derive"] }
thiserror = "*"
