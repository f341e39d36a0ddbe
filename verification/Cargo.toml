[package]
name = "nutritional_score"
version = "0.1.0"
edition = "2021"
publish = false

[dependencies]
rayon = "1"
rustc_apfloat = "0.2"
actix-web = "4"
actix-cors = "0.6"
env_logger = "0.10"
rand = "0.8"
serde = { version = "1", features = ["derive"] }
serde_json = "1"
sysinfo = "0.29"
