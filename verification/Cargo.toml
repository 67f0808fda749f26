[package]
name = "kv_downloader"
version = "0.1.0"
edition = "2021"
publish = false

[dependencies]
anyhow = "=1.0.104"
base64 = "=0.22.1"
clap = { version = "=4.6.7", features = ["derive", "cargo"] }
dirs = "=5.0.1"
dotenv = "=0.15.0"
headless_chrome = "=1.0.21"
keyring = "=3.6.3"
rpassword = "=7.5.4"
serde = { version = "=1.0.229", features = ["derive"] }
serde_json = "=1.0.154"
tracing = "=0.1.44"
tracing-subscriber = "=0.3.23"
url = "=2.5.8"
urlencoding = "=2.1.3"
