[package]
name = "chatbot_core"
version = "0.1.0"
edition = "2021"
publish = false

[dependencies]
serde_json = "=1.0.151"
regex = "=1.13.1"
http_req = "=0.14.6"
base64 = "*"
anyhow = "*"
log = "*"
once_cell = "*"
dotenv = "*"
secrecy = "=0.10.3"
tokio = { version = "*", features = ["macros", "rt"] }
reqwest = { version = "*", default-features = false }
async-openai = { version = "=0.35.0", features = ["chat-completion"] }
discord-flows = "*"
store-flows = "*"
cloud-vision-flows = "*"
web-scraper-flows = "*"
flowsnet-platform-sdk = "*"
