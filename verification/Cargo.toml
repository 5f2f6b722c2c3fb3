[package]
name = "tgdigest"
version = "0.5.0"
edition = "2021"
publish = false

[dependencies]
partial_sort = "=1.0.0"
path-slash = "=0.2.1"
chrono = "=0.4.45"
clap = { version = "=4.6.7", features = ["derive"] }
futures-util = "=0.3.34"
grammers-client = "=0.7.0"
grammers-session = "=0.7.0"
log = "=0.4.35"
serde = { version = "=1.0.229", features = ["derive"] }
serde_json = "=1.0.154"
simple_logger = "=5.2.0"
tera = "=1.20.1"
tokio = { version = "=1.54.1", features = ["full"] }
chromiumoxide = "=0.9.1"
