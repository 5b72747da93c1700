[package]
name = "rs_manifest_patcher"
version = "0.1.0"
edition = "2021"
publish = false

[dependencies]
clap = "4"
colored = "3"
figlet-rs = "0.1"
futures = "0.3"
humansize = "2"
md5 = "0.7"
reqwest = { version = "0.12", default-features = false, features = ["stream", "rustls-tls"] }
serde = { version = "1", features = ["derive"] }
serde_json = "1"
tokio = { version = "1", features = ["rt-multi-thread", "macros", "fs", "io-util"] }
url = "2"
