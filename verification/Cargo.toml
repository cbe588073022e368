[package]
name = "gerbot"
version = "0.1.0"
edition = "2021"
publish = false

[dependencies]
url = "=2.5.8"
time = { version = "=0.3.55", features = ["formatting", "parsing", "serde-well-known"] }
rand = "=0.9.5"
reqwest = { version = "=0.12.28", default-features = false, features = ["json", "rustls-tls"] }
tokio = { version = "=1.53.2", default-features = false, features = ["macros", "rt-multi-thread"] }
serde = { version = "=1.0.229", features = ["derive"] }
serde_json = "=1.0.151"
thiserror = "=1.0.69"
log = "=0.4.34"
env_logger = "=0.11.11"
