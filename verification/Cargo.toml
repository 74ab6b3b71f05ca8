[package]
name = "mtpdb_master"
version = "0.1.0"
edition = "2021"
publish = false

[dependencies]
axum = "0.7"
chrono = "0.4"
reqwest = { version = "0.12", default-features = false, features = ["json"] }
serde = { version = "1", features = ["derive"] }
serde_json = "1"
ssh2 = "0.9"
tokio = { version = "1", features = ["macros", "net", "rt-multi-thread", "sync"] }
uuid = { version = "1", features = ["v4"] }
