[package]
name = "bear_tracks"
version = "0.1.0"
edition = "2021"
publish = false

[dependencies]
actix-governor = "=0.4.1"
actix-http = "=3.20.0"
actix-identity = "=0.4.0"
actix-session = "=0.7.2"
actix-web = { version = "=4.18.1", default-features = false, features = ["macros", "cookies", "openssl"] }
actix-web-static-files = "=4.1.1"
dotenv = "=0.15.0"
env_logger = "=0.10.2"
futures-util = "=0.3.34"
log = "=0.4.35"
openssl = "=0.10.82"
r2d2_sqlite = "=0.21.0"
serde = { version = "=1.0.229", features = ["derive"] }
serde_json = "=1.0.154"
webauthn-rs = "=0.4.8"
