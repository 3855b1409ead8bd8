[package]
name = "workspace_db"
version = "0.1.0"
edition = "2021"
publish = false

[dependencies]
futures-util = "=0.3.34"
serde = "=1.0.229"
serde_json = "=1.0.154"
sqlx = { version = "=0.8.6", default-features = false, features = ["chrono", "json", "postgres", "runtime-tokio", "uuid"] }
tracing = "=0.1.44"
uuid = "=1.29.0"
