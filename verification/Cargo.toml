[package]
name = "handlebars_server"
version = "0.1.0"
edition = "2021"
publish = false

[dependencies]
anyhow = "1"
clap = "2"
crossbeam-channel = "0.5"
env_logger = "0.11"
futures = "0.3"
handlebars = "*"
http = "0.2"
log = "0.4"
notify = "*"
serde_json = "1"
structopt = "0.3"
tokio = { version = "1", features = ["full"] }
tokio-stream = "0.1"
urlencoding = "2"
warp = "0.3"
