[package]
name = "this_env"
version = "0.1.0"
edition = "2021"
publish = false

[dependencies]
actix-web = { version = "4", default-features = false, features = ["macros"] }
actix-service = "2"
actix-files = "0.6"
futures-util = "0.3"
rusqlite = "*"
serde = { version = "1", features = ["derive"] }
serde_json = "1"
serde_urlencoded = "0.7"
chrono = "0.4"
uuid = { version = "1", features = ["v4"] }
log = "0.4"
thiserror = "*"
