[package]
name = "programme"
version = "0.1.0"
edition = "2021"
publish = false

[dependencies]
ammonia = "4"
regex = "1"
serde = { version = "1", features = ["derive"] }
serde_json = "1"
time = { version = "0.3", features = ["parsing", "formatting"] }
uuid = { version = "1", features = ["v7"] }
