[package]
name = "rusty_resizer"
version = "0.1.0"
edition = "2021"
publish = false

[dependencies]
url = "*"
rand = "*"
httpdate = "*"
actix-web = "*"
actix-http = "*"
awc = { version = "*", features = ["openssl"] }
cadence = "*"
env_logger = "*"
log = "*"
futures-util = "*"
pin-project-lite = "*"
serde = { version = "*", features = ["derive"] }
magick_rust = "*"
openssl = "*"
