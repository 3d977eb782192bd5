[package]
name = "weather_clock"
version = "0.1.0"
edition = "2021"
publish = false

[dependencies]
anyhow = "1"
chrono = "0.4"
embedded-graphics = "0.8"
embedded-layout = "0.4"
embedded-svc = "*"
esp-idf-svc = "*"
log = "0.4"
serde = { version = "1", features = ["derive"] }
serde_json = "1"
ssd1306 = "*"
tinytga = "0.5"
