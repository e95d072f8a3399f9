[package]
name = "moose_core"
version = "0.1.0"
edition = "2021"
publish = false

[dependencies]
serde_json = "*"
reqwest = { version = "*", default-features = false, features = ["rustls-tls", "stream"] }
tokio = { version = "*", default-features = false, features = ["rt", "macros"] }
futures-util = "*"
ctrlc = "*"
