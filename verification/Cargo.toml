[package]
name = "chat_server"
version = "0.1.0"
edition = "2021"
publish = false

[dependencies]
aes-gcm = "0.10"
chrono = "0.4"
colored = "2"
hex = "0.4"
once_cell = "1"
rand = "0.8"
tokio = { version = "1", features = ["rt-multi-thread", "macros", "net", "io-util", "fs", "sync"] }
