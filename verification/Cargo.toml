[package]
name = "tamagochi"
version = "1.0.0"
edition = "2021"
publish = false

[dependencies]
embedded-graphics = "0.8"
esp-idf-svc = "*"
log = "0.4"
serde = { version = "1", default-features = false, features = ["derive"] }
ssd1306 = "*"
