[package]
name = "filedrop"
version = "0.1.0"
edition = "2021"
publish = false

[dependencies]
uuid = { version = "1", features = ["v4"] }
serde = { version = "1", features = ["derive"] }
tokio = { version = "1", features = ["fs"] }
rocket = "0.5"
rocket_db_pools = { version = "*", features = ["sqlx_sqlite"] }
sqlx = "*"
