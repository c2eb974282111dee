[package]
name = "ndocker"
version = "0.1.0"
edition = "2021"
publish = false

[dependencies]
bollard = "0.19.4"
bytes = "=1.12.1"
chrono = "=0.4.45"
futures-util = "=0.3.34"
nu-plugin = "=0.114.1"
nu-protocol = "=0.114.1"
serde = { version = "=1.0.229", features = ["derive"] }
serde_json = "=1.0.154"
tokio = { version = "=1.54.1", features = ["rt", "rt-multi-thread", "fs"] }
tokio-util = { version = "=0.7.20", features = ["codec"] }
typetag = "=0.2.23"
