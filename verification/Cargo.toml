[package]
name = "mattermost_driver"
version = "0.1.0"
edition = "2021"
publish = false

[dependencies]
dotenv = "=0.13.0"
futures = "=0.1.31"
hyper = "=0.12.36"
hyper-rustls = "=0.17.1"
serde_json = { version = "=1.0.154", features = ["preserve_order"] }
tokio = "=0.1.22"
url = "=1.7.2"
