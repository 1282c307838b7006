[package]
name = "tushare_api"
version = "0.1.0"
edition = "2021"
publish = false

[dependencies]
chrono = { version = "=0.4.45", default-features = false, features = ["std"] }
rand = "=0.8.8"
log = "=0.4.34"
serde = { version = "=1.0.229", features = ["derive"] }
serde_json = "=1.0.151"
reqwest = { version = "=0.12.28", default-features = false, features = ["json"] }
tokio = { version = "=1.53.2", default-features = false, features = ["sync", "time", "rt", "macros"] }
uuid = { version = "=1.27.0", features = ["v4"] }
rust_decimal = { version = "=1.43.0", default-features = false, features = ["std"] }
bigdecimal = "0.4"
