[package]
name = "address_book"
version = "0.1.0"
edition = "2021"
publish = false

[dependencies]
actix-web = { version = "4", default-features = false, features = ["macros"] }
actix-service = "2"
futures-util = "0.3"
log = "0.4"
serde = { version = "1", features = ["derive"] }
serde_json = { version = "1", features = ["preserve_order"] }
jsonwebtoken = "9"
bcrypt = "0.15"
chrono = "0.4"
uuid = { version = "1", features = ["v4"] }
