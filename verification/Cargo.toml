[package]
name = "todo_store"
version = "0.1.0"
edition = "2021"
publish = false

[dependencies]
uuid = { version = "*", features = ["v7"] }
serde = { version = "*", features = ["derive"] }
serde_json = "*"
tokio = { version = "*", features = ["macros", "rt"] }
axum = "*"
tower-http = { version = "*", features = ["add-extension"] }
lambda_http = "*"
lambda_runtime = "*"
aws-config = "*"
aws-sdk-dynamodb = "*"
