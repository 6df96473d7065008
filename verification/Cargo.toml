[package]
name = "gptcli"
version = "0.1.0"
edition = "2021"
publish = false

[dependencies]
base64 = "=0.13.1"
serde = { version = "1", features = ["derive"] }
serde_json = "=1.0.151"
reqwest = { version = "0.11", default-features = false, features = ["json", "stream"] }
tokio = { version = "1", features = ["macros", "rt-multi-thread"] }
futures = "0.3"
colored = "*"
indicatif = "0.17"
dotenv = "*"
env_logger = "*"
