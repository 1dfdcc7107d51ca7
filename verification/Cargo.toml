[package]
name = "couchbase_lite"
version = "0.1.0"
edition = "2021"
publish = false

[dependencies]
itoa = "1"
ryu = "1"
serde = { version = "1", features = ["derive"] }
uuid = { version = "1", features = ["v4"] }
http = "1"
tokio = { version = "1", features = ["rt", "sync", "time", "net", "macros"] }
tokio-tungstenite = { version = "*", default-features = false, features = ["connect", "handshake"] }
futures-util = { version = "0.3", default-features = false, features = ["sink", "std"] }
fallible-streaming-iterator = "0.1"
once_cell = "1"
log = "0.4"
va_list = "*"
