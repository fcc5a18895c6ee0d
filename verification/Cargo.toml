[package]
name = "bmos"
version = "0.1.0"
edition = "2021"
publish = false

[dependencies]
chrono = "0.4"
slab = "0.4"
serde = { version = "1", features = ["derive"] }
bincode = "1"
mio = "0.6"
hyper = "0.11"
futures = "0.1"
log = "0.4"
pretty_env_logger = "0.4"
clap = "2"
rusqlite = { version = "0.31", features = ["bundled"] }
