[package]
name = "zero2prod"
version = "0.1.0"
edition = "2021"
publish = false

[dependencies]
base64 = "=0.13.1"
rand = "=0.8.8"
unicode-segmentation = "=1.13.3"
validator = "=0.16.1"
htmlescape = "=0.3.1"
serde = { version = "1", features = ["derive"] }
secrecy = "=0.8.0"
actix-web = "=4.15.0"
actix-web-flash-messages = { version = "=0.4.2", features = ["cookies"] }
reqwest = { version = "=0.11.27", default-features = false, features = ["json"] }
tokio = { version = "1", features = ["macros", "rt-multi-thread"] }

[dev-dependencies]
fake = "=2.10.0"
