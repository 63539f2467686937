[package]
name = "honeypot"
version = "0.1.0"
edition = "2021"
publish = false

[dependencies]
anyhow = "1"
azalea-chat = "0.7.0"
azalea-protocol = "0.7.0"
chrono = "0.4"
diesel = { version = "2.1", features = ["postgres", "chrono", "uuid"] }
diesel_migrations = { version = "2.1", features = ["postgres"] }
dotenvy = "0.15"
env_logger = "0.10"
fastrand = "2"
log = "0.4"
once_cell = "1"
serde = { version = "1", features = ["derive"] }
tokio = { version = "1", features = ["full"] }
uuid = { version = "1", features = ["v4"] }
webhook = "2"
