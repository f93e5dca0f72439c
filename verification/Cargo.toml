[package]
name = "resizer"
version = "0.1.0"
edition = "2021"
publish = false

[dependencies]
image = { version = "0.24", default-features = false, features = ["png", "jpeg"] }
actix-web = { version = "4", default-features = false, features = ["macros"] }
actix-multipart = "*"
actix-cors = "*"
futures = "0.3"
dotenv = "0.15"
env_logger = "*"
log = "0.4"
