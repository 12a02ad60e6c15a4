[package]
name = "deepseek_tutor"
version = "0.1.0"
edition = "2021"
publish = false

[dependencies]
askama = "=0.16.1"
async-openai = { version = "=0.42.1", features = ["chat-completion"] }
axum = "=0.8.9"
dotenv = "=0.15.0"
serde = { version = "*", features = ["derive"] }
serde_json = "*"
thiserror = "*"
tokio = { version = "*", features = ["rt-multi-thread", "macros", "net", "sync"] }
tower-http = { version = "*", features = ["fs"] }
uuid = { version = "=1.27.0", features = ["v4"] }
