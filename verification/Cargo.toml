[package]
name = "near_backend"
version = "0.1.0"
edition = "2021"
publish = false

[dependencies]
near-crypto = "=0.37.4"
ed25519-dalek = { version = "=2.2.0", default-features = false }
near-primitives = "=0.37.4"
near-jsonrpc-client = "=0.22.0"
near-jsonrpc-primitives = "=0.37.4"
borsh = "=1.8.1"
serde = { version = "*", features = ["derive"] }
serde_json = "*"
base64 = "*"
chrono = { version = "*", features = ["serde"] }
tokio = { version = "*", features = ["rt-multi-thread", "macros", "time"] }
actix-web = { version = "*", default-features = false, features = ["macros"] }
actix-cors = "*"
dotenv = "*"
env_logger = "*"
log = "*"
