[package]
name = "soroban_playground"
version = "0.1.0"
edition = "2021"
publish = false

[dependencies]
aes-gcm = "=0.10.3"
sha2 = "=0.10.9"
hex = "=0.4.3"
chrono = { version = "=0.4.45", default-features = false, features = ["std", "clock"] }
tokio = { version = "=1.54.1", features = ["macros", "rt-multi-thread", "fs"] }
soroban-sdk = "=29.0.1"

[dev-dependencies]
soroban-sdk = { version = "=29.0.1", features = ["testutils"] }
