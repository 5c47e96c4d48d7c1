[package]
name = "github_stats"
version = "0.1.0"
edition = "2021"
publish = false

[dependencies]
url = "=2.5.8"
reqwest = { version = "=0.12.28", default-features = false, features = ["json", "rustls-tls"] }
serde = { version = "1", features = ["derive"] }
serde_json = "1"
tokio = { version = "1", features = ["time"] }
anyhow = "1"
log = { version = "=0.4.34", features = ["kv"] }
actix-web = "=4.18.1"
actix-files = "=0.6.10"
actix-governor = "=0.10.0"
config = { version = "=0.15.27", default-features = false }
dotenv = "0.15"
env_logger = "=0.11.11"
mime = "0.3"
