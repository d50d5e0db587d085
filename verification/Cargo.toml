[package]
name = "image_compositor"
version = "0.1.0"
edition = "2021"
publish = false

[dependencies]
image = { version = "0.24", default-features = false, features = ["png", "gif"] }
actix-web = { version = "4", default-features = false, features = ["macros"] }
actix-cors = "0.6"
reqwest = { version = "0.11", default-features = false, features = ["rustls-tls"] }
dotenv = "0.15"
serde = { version = "1", features = ["derive"] }
derive_more = "0.99"
