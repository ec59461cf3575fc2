[package]
name = "cloudesire_sync"
version = "0.1.0"
edition = "2021"
publish = false

[dependencies]
actix-web = "4"
env_logger = "*"
log = "0.4"
serde = { version = "1", features = ["derive"] }
ureq = { version = "2", features = ["json"] }
