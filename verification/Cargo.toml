[package]
name = "matrix_bot"
version = "0.1.0"
edition = "2021"
publish = false

[dependencies]
anyhow = "1"
directories = "*"
dirs = "*"
matrix-sdk = "0.5"
serde = { version = "1", features = ["derive"] }
tokio = { version = "1", features = ["macros", "rt-multi-thread", "time"] }
toml = "*"
uuid = { version = "0.8", features = ["v4"] }
