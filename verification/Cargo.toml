[package]
name = "aptabase-rs"
version = "0.1.0"
edition = "2021"
publish = false

[dependencies]
log = "=0.4.35"
os_info = "=3.15.0"
rand = "=0.9.5"
reqwest = { version = "=0.12.28", default-features = false, features = ["json", "rustls-tls"] }
serde_json = "=1.0.154"
sys-locale = "=0.3.2"
time = { version = "=0.3.55", features = ["formatting"] }
tokio = { version = "=1.54.1", features = ["rt", "time"] }
