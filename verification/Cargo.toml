[package]
name = "dwd"
version = "0.1.0"
edition = "2021"
publish = false

[dependencies]
chrono = "0.4"
clap = { version = "3", features = ["derive"] }
console = "0.15"
dotenv = "0.15"
env_logger = "0.9"
lazy_static = "1"
log = "0.4"
regex = "1"
reqwest = { version = "0.11", features = ["json"] }
serde = { version = "1", features = ["derive"] }
serde_json = "1"
serde_yaml = "0.8"
tokio = { version = "1", features = ["macros", "rt", "time"] }
toml = "0.5"
