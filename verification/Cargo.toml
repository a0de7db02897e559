[package]
name = "cw-user"
version = "0.1.0"
edition = "2021"
publish = false

[dependencies]
cosmwasm-schema = "1"
cosmwasm-std = "1"
cw-storage-plus = "1"
cw2 = "1"
hex = "0.4"
schemars = "0.8"
serde = { version = "1", default-features = false, features = ["derive"] }
sha2 = "0.10"
thiserror = "1"
