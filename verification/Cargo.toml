[package]
name = "zero2prod"
version = "0.1.0"
edition = "2021"
publish = false

[dependencies]
unicode-segmentation = "1"
rand = "0.8"
base64 = "0.13"
argon2 = "0.4"
uuid = { version = "1", features = ["v4"] }
chrono = { version = "0.4", default-features = false, features = ["clock"] }
serde = { version = "1", features = ["derive"] }
actix-web = "4"
sqlx = { version = "0.6", default-features = false, features = ["runtime-actix-rustls", "postgres", "uuid", "chrono"] }
reqwest = { version = "0.11", default-features = false, features = ["json", "rustls-tls"] }
config = "0.13"
