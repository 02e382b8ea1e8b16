[package]
name = "sensor_panel"
version = "0.1.0"
edition = "2021"
publish = false

[dependencies]
chrono = "=0.4.45"
clap = "=3.2.25"
raylib = { version = "=3.7.0", features = ["nobuild"] }
reqwest = { version = "=0.11.27", features = ["blocking", "json"] }
serde = { version = "=1.0.229", features = ["derive"] }
serde_json = "=1.0.154"
toml = "=0.5.11"
tungstenite = "=0.17.3"
