[package]
name = "chat_server"
version = "0.1.0"
edition = "2021"
publish = false

[dependencies]
rocket = { version = "0.5", features = ["json", "secrets"] }
rocket_sync_db_pools = { version = "0.1", features = ["sqlite_pool"] }
