[package]
name = "restate_node"
version = "0.1.0"
edition = "2021"
publish = false

[dependencies]
anyhow = "1"
bytes = "1"
bytestring = "1"
futures = "0.3"
futures-util = "0.3"
rand = "0.9"
static_assertions = "1"
thiserror = "2"
tokio = { version = "1", features = ["sync"] }
tracing = "0.1"
