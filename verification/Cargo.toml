[package]
name = "philo"
version = "0.1.0"
edition = "2021"
publish = false

[dependencies]
http = "=1.5.0"
url = "=2.5.8"
uuid = { version = "=1.29.0", features = ["v4"] }
secrecy = "=0.10.3"
serde = { version = "=1.0.229", features = ["derive"] }
tokio = { version = "1", features = ["sync", "time"] }
futures-util = "0.3"
