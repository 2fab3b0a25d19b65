[package]
name = "lab_presence"
version = "0.1.0"
edition = "2021"
publish = false

[dependencies]
serde = { version = "1", features = ["derive"] }
serde_json = "1"
rand = "0.10"
base64 = "0.22"
actix-web = { version = "4", features = ["rustls-0_23"] }
rustls = "0.23"
rcgen = "0.14"
env_logger = "0.11"
log = "0.4"
dotenv = "0.15"
dotenvy = "0.15"
ureq = { version = "3", features = ["json"] }
pcsc = "2"
