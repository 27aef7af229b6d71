[package]
name = "jsonrpsee_server"
version = "0.1.0"
edition = "2021"
publish = false

[dependencies]
futures-util = { version = "0.3", features = ["io"] }
http-body = "1"
hyper = { version = "1", features = ["server", "http1", "http2"] }
hyper-util = { version = "0.1", features = ["tokio", "service", "server-auto"] }
serde = { version = "1", features = ["derive"] }
serde_json = { version = "1", features = ["raw_value"] }
soketto = { version = "0.8", features = ["http"] }
thiserror = "2"
tokio = { version = "1", features = ["net", "rt-multi-thread", "macros", "time", "sync"] }
tokio-util = { version = "0.7", features = ["compat"] }
tower = { version = "0.5", features = ["util"] }
tracing = "0.1"
