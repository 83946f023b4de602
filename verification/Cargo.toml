[package]
name = "auth_service"
version = "0.1.0"
edition = "2021"
publish = false

[dependencies]
actix-cors = "0.7"
actix-web = { version = "4", features = ["rustls-0_21"] }
bcrypt = "0.15"
chrono = "0.4"
dotenv = "0.15"
env_logger = "0.10"
http = "0.2"
jsonwebtoken = "9"
lettre = "0.11"
log = "0.4"
mysql_async = { version = "0.34", default-features = false, features = ["minimal"] }
rand = "0.8"
rustls = "0.21"
rustls-pemfile = "1"
serde = { version = "1", features = ["derive"] }
serde_json = "1"
thiserror = "1"
uuid = { version = "1", features = ["v4"] }
validator = "0.16"
