[package]
name = "sticker_bot"
version = "0.1.0"
edition = "2021"
publish = false

[dependencies]
sled = "=0.34.7"
telebot = "=0.3.1"
futures = "=0.1.31"
hyper = "=0.12.36"
hyper-tls = "=0.3.2"
magick_rust = "*"
envy = "=0.4.2"
serde = { version = "=1.0.229", features = ["derive"] }
