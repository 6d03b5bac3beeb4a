[package]
name = "imvote"
version = "0.1.0"
edition = "2021"
publish = false

[dependencies]
actix = "0.13"
actix-web = "4"
actix-web-actors = "4"
awc = "3"
bytestring = "1"
chrono = "0.4"
futures-util = "0.3"
ipnetwork = "0.20"
lazy_static = "1"
log = "0.4"
log4rs = "1"
parking_lot = "0.12"
rand = "0.8"
serde = { version = "1", features = ["derive"] }
serde_json = "1"
sqlite = "0.31"
structopt = "0.3"
tokio = { version = "1", features = ["full"] }
tokio-stream = "0.1"
tokio-util = "0.7"
toml = "0.7"
