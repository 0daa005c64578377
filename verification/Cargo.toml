[package]
name = "sun_registry"
version = "0.1.0"
edition = "2021"
publish = false

[dependencies]
aes = "*"
cmac = "*"
cosmwasm-std = "1"
cosmwasm-storage = "1"
schemars = "0.8"
serde = { version = "1", features = ["derive"] }
secret-toolkit = "*"

[dev-dependencies]
base16 = "*"
