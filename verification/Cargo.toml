[package]
name = "innit"
version = "0.1.0"
edition = "2021"
publish = false

[dependencies]
rand = "=0.8.5"
rand_core = "=0.6.4"
rand_isaac = "=0.3.0"
serde = { version = "1", features = ["derive"] }
serde_json = "1"
dirs = "*"
log = "0.4"
pretty_env_logger = "*"
