[package]
name = "tower-json-rpc"
version = "0.1.0"
edition = "2021"
publish = false

[dependencies]
serde = { version = "1", features = ["derive"] }
serde_json = { version = "1", features = ["raw_value"] }
jsonrpsee-types = "*"
jsonrpsee = { version = "*", features = ["ws-client"] }
http = "1"
http-body-util = "0.1"
hyper = { version = "1", features = ["client", "server", "http1"] }
hyper-util = { version = "0.1", features = ["client-legacy", "http1", "tokio", "service"] }
hyper-rustls = "*"
tower = { version = "0.5", features = ["util"] }
futures = "0.3"
futures-util = "0.3"
tokio = { version = "1", features = ["rt", "macros", "net"] }
thiserror = "*"
axum = "*"
syn = { version = "2", features = ["full", "extra-traits"] }
quote = "1"
proc-macro2 = "1"
