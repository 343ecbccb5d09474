[package]
name = "meteo_wizard"
version = "0.1.0"
edition = "2021"
publish = false

[dependencies]
ipgeolocate = "*"
postcode = "*"
public-ip = "*"
tokio = { version = "*", features = ["macros", "rt-multi-thread"] }
log = "*"
env_logger = "*"
serde = { version = "*", features = ["derive"] }
serde_json = "*"
thiserror = "*"
