[package]
name = "socket_server"
version = "0.1.0"
edition = "2021"
publish = false

[dependencies]
bytes = "1"
byteorder = "1"
tokio = { version = "1", features = ["sync", "macros", "rt-multi-thread", "net"] }
tokio-tungstenite = "*"
futures-util = { version = "0.3", features = ["sink"] }
futures = "0.3"
prost = "*"
thiserror = "*"
uuid = { version = "1", features = ["v4"] }
async-trait = "*"
