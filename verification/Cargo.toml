[package]
name = "godaddy_ddns"
version = "0.1.0"
edition = "2021"
publish = false

[dependencies]
serde_json = "1"
reqwest = { version = "0.12", default-features = false }
tokio = { version = "1", features = ["macros", "rt-multi-thread", "time"] }
public-ip = "0.2"
log = "0.4"
env_logger = "0.11"
