[package]
name = "webpify"
version = "0.1.0"
edition = "2021"
publish = false

[dependencies]
anyhow = "*"
chrono = { version = "*", features = ["serde"] }
clap = { version = "*", features = ["derive"] }
env_logger = "*"
humansize = "*"
image = "*"
indicatif = "*"
log = "*"
num_cpus = "*"
rayon = "*"
serde = { version = "*", features = ["derive"] }
serde_json = "*"
trash = "*"
walkdir = "*"
webp = "*"
