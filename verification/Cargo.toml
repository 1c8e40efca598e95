[package]
name = "flv_tls_proxy"
version = "0.1.0"
edition = "2021"
publish = false

[dependencies]
anyhow = "*"
async-trait = "*"
event-listener = "*"
fluvio-future = { version = "*", features = ["net", "task", "rust_tls"] }
futures-util = { version = "*", features = ["io"] }
tokio = { version = "*", features = ["macros"] }
tracing = "*"
