[package]
name = "static_contact"
version = "0.1.0"
edition = "2021"
publish = false

[dependencies]
actix-cors = "0.6"
actix-rt = "2"
actix-web = "4"
app_dirs = "=1.2.1"
check-if-email-exists = "=0.6.1"
env_logger = "=0.7.1"
failure = "=0.1.8"
lazy_static = "=1.5.1"
lettre = "=0.9.6"
lettre_email = "=0.9.4"
mime = "=0.3.17"
serde = { version = "=1.0.229", features = ["derive"] }
toml = "=0.5.11"
