[package]
name = "qrshare"
version = "0.1.0"
edition = "2021"
publish = false

[dependencies]
sha2 = "=0.11.0"
blake2 = "=0.11.0"
http = "=1.5.0"
qrcode = "=0.14.1"
tokio = { version = "=1.53.2", features = ["rt-multi-thread", "macros", "fs", "io-util", "sync"] }
actix-web = "=4.15.0"
actix-files = "=0.7.0"
serde = { version = "=1.0.229", features = ["derive"] }
serde_json = "=1.0.151"
clap = { version = "=4.6.7", features = ["derive"] }
get_if_addrs = "=0.5.3"
build_html = "=2.8.0"
image = { version = "=0.25.10", default-features = false, features = ["png"] }
open = "=5.4.4"
tempfile = "=3.27.0"
log = "=0.4.34"
simple_logger = "=5.2.0"
mime = "=0.3.17"
futures = "=0.3.34"
hyper = "=1.12.0"
