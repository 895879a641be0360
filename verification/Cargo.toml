[package]
name = "juus"
version = "0.1.0"
edition = "2021"
publish = false

[dependencies]
iroh = { version = "=1.4.1", default-features = false, features = ["tls-ring"] }
redb = "=2.6.4"
tokio = { version = "=1.54.1", features = ["rt-multi-thread", "macros"] }
reqwest = { version = "=0.13.5", default-features = false, features = ["blocking", "json"] }
serde = { version = "=1.0.229", features = ["derive"] }
serde_json = "=1.0.154"
serde_bytes = "=0.11.19"
thiserror = "=2.0.21"
tempfile = "=3.27.0"
env_logger = { version = "=0.11.11", default-features = false }
actix-web = { version = "=4.18.1", default-features = false, features = ["macros"] }
