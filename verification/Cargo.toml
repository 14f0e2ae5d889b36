[package]
name = "connection_conf"
version = "0.1.0"
edition = "2021"
publish = false

[dependencies]
url = "2"
serde_json = "1"
eyre = "0.6"
anyhow = "1"
thiserror = "1"
tracing = "0.1"
derive_more = "0.99"
sea-orm = { version = "0.11", default-features = false, features = ["macros", "with-bigdecimal", "with-time"] }
