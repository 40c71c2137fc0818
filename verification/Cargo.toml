[package]
name = "jil_api"
version = "0.1.0"
edition = "2021"
publish = false

[dependencies]
chrono = { version = "0.4", features = ["serde"] }
uuid = { version = "1", features = ["v4", "serde"] }
serde = { version = "1", features = ["derive"] }
serde_json = "1"
anyhow = "1"
actix-web = "4"
actix-cors = "*"
actix-web-httpauth = "*"
aws-config = "1"
aws-sdk-dynamodb = "1"
dotenv = "*"
env_logger = "*"
governor = "*"
minijinja = "*"
reqwest = { version = "*", features = ["json"] }
tokio = { version = "1", features = ["sync", "macros", "rt-multi-thread"] }
utoipa = { version = "*", features = ["actix_extras"] }
utoipa-scalar = { version = "*", features = ["actix-web"] }
