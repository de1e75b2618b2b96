[package]
name = "meshetar"
version = "0.1.0"
edition = "2021"
publish = false

[dependencies]
chrono = "=0.4.45"
uuid = { version = "=1.27.0", features = ["v4"] }
petname = "=2.0.2"
toml = "=0.8.23"
serde = { version = "1", features = ["derive"] }
