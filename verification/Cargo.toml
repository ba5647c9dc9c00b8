[package]
name = "sqwerk"
version = "0.1.0"
edition = "2021"
publish = false

[dependencies]
base64 = "0.21"
bincode = "1.3"
fastwebsockets = { version = "*", features = ["upgrade", "unstable-split"] }
futures = "0.3"
http-body-util = "0.1"
hyper = { version = "1", features = ["client", "server", "http1"] }
hyper-util = { version = "0.1", features = ["tokio"] }
paste = "1"
rand = "0.8"
response_channel = "*"
serde = { version = "1", features = ["derive"] }
thiserror = "1"
tokio = { version = "1", features = ["macros", "rt-multi-thread", "net", "sync", "time", "io-util"] }
