[package]
name = "shop_api"
version = "0.1.0"
edition = "2021"
publish = false

[dependencies]
actix-web = { version = "=4.18.1", default-features = false, features = ["macros"] }
bcrypt = "=0.15.1"
chrono = "=0.4.45"
dotenvy = "=0.15.7"
futures-util = "=0.3.34"
jsonwebtoken = "=9.3.1"
serde = { version = "=1.0.229", features = ["derive"] }
serde_json = { version = "=1.0.154", features = ["preserve_order", "raw_value"] }
sqlx = { version = "=0.8.6", default-features = false, features = ["mysql", "runtime-tokio"] }
