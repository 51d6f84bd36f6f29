[package]
name = "booking_auth"
version = "0.1.0"
edition = "2021"
publish = false

[dependencies]
rs_sha512 = "=0.1.3"
regex = "=1.13.1"
rand = "=0.8.8"
chrono = "=0.4.45"
actix-web = "=4.18.1"
actix-session = { version = "=0.11.0", features = ["cookie-session"] }
actix-files = "=0.7.2"
deadpool-postgres = { version = "=0.14.2", features = ["serde"] }
tokio-postgres = "=0.7.18"
handlebars = { version = "=6.4.4", features = ["dir_source"] }
serde = { version = "=1.0.229", features = ["derive"] }
serde_json = "=1.0.154"
config = "=0.15.27"
dotenv = "=0.15.0"
env_logger = "=0.11.11"
log = "=0.4.34"
actix-web-lab = "*"
async-stream = "*"
