[package]
name = "moonsock"
version = "0.1.0"
edition = "2021"
publish = false

[dependencies]
serde = { version = "1", features = ["derive"] }
serde_json = "1"
rand = "*"
url = "2"
tokio = { version = "1", features = ["full"] }
tokio-tungstenite = "*"
futures-util = { version = "0.3", features = ["sink"] }
tokio-util = { version = "0.7", features = ["codec"] }
tracing = "0.1"
thiserror = "*"
spinoff = "*"
fastwebsockets = { version = "*", features = ["upgrade"] }
hyper = { version = "1", features = ["client", "http1"] }
hyper-util = { version = "*", features = ["tokio"] }
http-body-util = "*"
anyhow = "1"
