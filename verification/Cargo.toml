[package]
name = "hebergement"
version = "0.1.0"
edition = "2021"
publish = false

[dependencies]
ed25519-dalek = "=3.0.0"
serde = { version = "=1.0.229", features = ["derive"] }
serde_json = "=1.0.151"
log = "=0.4.34"
env_logger = "=0.11.11"

[dev-dependencies]
jwt-simple = "=0.11.9"
base64 = "=0.23.1"
