[package]
name = "mdsns_backend"
version = "0.1.0"
edition = "2021"
publish = false

[dependencies]
uuid = { version = "=1.29.1", features = ["serde"] }
alcoholic_jwt = "=10039.0.0"
chrono = { version = "=0.4.45", features = ["serde"] }
serde = { version = "=1.0.229", features = ["derive"] }
actix-web = "=4.18.1"
actix-web-lab = "=0.29.5"
diesel = { version = "=2.3.14", features = ["postgres", "chrono", "uuid"] }
fireauth = "=0.1.5"
reqwest = { version = "=0.11.27", features = ["json"] }
log = "=0.4.35"
env_logger = "=0.11.11"
dotenvy = "=0.15.7"

[dev-dependencies]
serde_json = "=1.0.154"
