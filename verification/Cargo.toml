[package]
name = "firehose_client"
version = "0.1.0"
edition = "2021"
publish = false

[dependencies]
anyhow = "=1.0.104"
async-stream = "=0.3.6"
atrium-api = "=0.24.10"
atrium-xrpc = "=0.12.4"
bon = "=2.3.0"
cbor4ii = "=0.2.14"
futures = "=0.3.34"
ipld-core = "=0.4.3"
rs-car = "0.5"
serde = { version = "=1.0.229", features = ["derive"] }
serde_html_form = "=0.2.8"
serde_ipld_dagcbor = "=0.6.4"
thiserror = "=1.0.69"
tokio = { version = "=1.54.1", features = ["macros", "rt-multi-thread", "net"] }
tokio-tungstenite = { version = "=0.24.0", features = ["rustls-tls-webpki-roots"] }
