[package]
name = "custos"
version = "0.1.0"
edition = "2021"
publish = false

[dependencies]
carapax = "=0.12.0"
dotenv = "=0.15.0"
env_logger = "=0.9.3"
tokio = { version = "=1.54.1", features = ["macros", "rt-multi-thread"] }

[dev-dependencies]
serde_json = "=1.0.154"
