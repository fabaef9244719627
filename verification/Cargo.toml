[package]
name = "adaptive_reasoner"
version = "0.1.0"
edition = "2021"
publish = false

[dependencies]
mime = "0.3"
serde_json = "1"
serde = { version = "1", features = ["derive"] }
actix-web = { version = "4", default-features = false, features = ["macros"] }
reqwest = { version = "0.12", default-features = false, features = ["json", "stream"] }
tokio = { version = "1", features = ["rt", "macros", "sync"] }
tokio-stream = "0.1"
futures-util = "0.3"
dotenv = "0.15"
env_logger = "0.11"
log = "0.4"
