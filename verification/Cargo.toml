[package]
name = "rustybus"
version = "0.1.0"
edition = "2021"
publish = false

[dependencies]
serde_json = "=1.0.151"
tokio = { version = "=1.53.2", features = ["macros", "rt-multi-thread"] }
azure_core = "=0.21.0"
azure_messaging_servicebus = "=0.21.0"
rustdotenv = "=0.1.2"
