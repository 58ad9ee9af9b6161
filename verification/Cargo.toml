[package]
name = "mission_control"
version = "0.1.0"
edition = "2021"
publish = false

[dependencies]
anyhow = "*"
async-std = { version = "*", features = ["attributes"] }
async-stream = "*"
async-trait = "*"
base64 = "*"
bytes = "*"
chromiumoxide = { version = "*", default-features = false, features = ["async-std-runtime"] }
chrono = { version = "*", features = ["serde"] }
figment = { version = "*", features = ["toml"] }
futures = "*"
poem = "*"
poem-openapi = { version = "*", features = ["swagger-ui"] }
reqwest = { version = "*", default-features = false }
rumqttc = "*"
serde = { version = "*", features = ["derive"] }
serde_json = "*"
sqlx = { version = "*", default-features = false, features = ["runtime-async-std", "sqlite", "chrono"] }
tracing = "*"
tracing-subscriber = "*"
