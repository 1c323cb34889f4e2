[package]
name = "rest_client"
version = "0.1.0"
edition = "2021"
publish = false

[dependencies]
hyper = { version = "1", default-features = false, features = ["client", "http1"] }
http-body-util = "0.1"
tokio = { version = "1", default-features = false, features = ["net", "rt", "rt-multi-thread", "io-util", "io-std"] }
bytes = "1"
pin-project-lite = "0.2"
uuid = { version = "1", default-features = false, features = ["std", "v4"] }
chrono = { version = "0.4", default-features = false, features = ["std", "clock", "serde"] }
serde = { version = "1", default-features = false, features = ["std", "derive"] }
actix-web = { version = "4", default-features = false }
actix-rt = { version = "2", default-features = false }
env_logger = { version = "0.11", default-features = false }
