[package]
name = "meshchat"
version = "0.1.0"
edition = "2021"
publish = false

[dependencies]
ringmap = "=0.2.8"
serde = { version = "=1.0.229", features = ["derive"] }
toml = "=0.9.8"
chrono = "=0.4.45"
uuid = "=1.29.0"
directories = "=6.0.0"
url = "=2.5.8"
emojis = "=0.9.1"
webbrowser = "=1.2.6"
iced = { version = "=0.14.0", default-features = false, features = ["tiny-skia", "tokio", "advanced"] }
btleplug = "=0.13.5"
meshtastic = "=0.1.9"
meshcore-rs = "=0.2.0"
tokio = { version = "=1.54.1", features = ["rt", "macros", "sync", "time", "fs", "io-util"] }
tokio-stream = "=0.1.19"
futures = "=0.3.34"
futures-channel = "=0.3.34"
async-stream = "=0.3.6"
anyhow = "=1.0.104"
