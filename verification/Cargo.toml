[package]
name = "pact_stub_server"
version = "0.4.4"
edition = "2021"
publish = false

[dependencies]
anyhow = "=1.0.40"
base64 = "=0.13.1"
clap = "=2.34.0"
futures = "0.3"
hyper = { version = "0.14", features = ["server", "http1", "tcp"] }
log = "0.4"
maplit = "1"
pact_matching = "=0.10.3"
pact_models = "=0.1.4"
pact_verifier = "=0.10.13"
regex = "1"
reqwest = { version = "0.11", default-features = false, features = ["json", "rustls-tls"] }
serde_json = "1"
simplelog = "=0.9.0"
tokio = { version = "1", features = ["full"] }
