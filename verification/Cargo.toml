[package]
name = "chat_server"
version = "0.1.0"
edition = "2021"
publish = false

[dependencies]
actix-web = { version = "4", default-features = false, features = ["macros"] }
actix-web-validator = "5.0.1"
async-openai = { version = "0.29", default-features = false }
diesel = { version = "2", features = ["postgres"] }
futures = "0.3"
log = "0.4"
serde = { version = "1", features = ["derive"] }
serde_json = "1"
thiserror = "1"
tokio = { version = "1", features = ["sync", "rt", "macros"] }
utoipa = "3"
uuid = { version = "1", features = ["v4"] }
validator = { version = "0.16", features = ["derive"] }
