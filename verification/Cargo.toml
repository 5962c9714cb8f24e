[package]
name = "hbb_common"
version = "0.1.0"
edition = "2021"
publish = false

[dependencies]
anyhow = "1"
async-trait = "0.1"
bytes = "1"
futures = "0.3"
image = { version = "0.24", default-features = false, features = ["png"] }
log = "0.4"
protobuf = "3"
quinn = "0.10"
rcgen = "0.11"
rustls = { version = "0.21", features = ["dangerous_configuration", "quic"] }
tokio = { version = "1", features = ["full"] }
tokio-util = { version = "0.7", features = ["codec"] }
tracing = "0.1"
tracing-subscriber = "0.3"
