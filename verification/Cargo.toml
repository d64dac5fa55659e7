[package]
name = "ocr_client"
version = "0.1.0"
edition = "2021"
publish = false

[dependencies]
base64 = "=0.23.1"
serde = { version = "=1.0.229", features = ["derive"] }
serde_json = "=1.0.151"
reqwest = { version = "=0.13.5", default-features = false, features = ["json", "multipart"] }
tokio = { version = "=1.53.2", features = ["rt-multi-thread", "macros"] }
dotenv = "=0.15.0"
async-openai = { version = "=0.42.1", default-features = false, features = ["chat-completion", "rustls-no-provider"] }
