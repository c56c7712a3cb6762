[package]
name = "doip_server"
version = "0.1.0"
edition = "2021"
publish = false

[dependencies]
doip-codec = "=2.0.2"
doip-definitions = "=1.0.3"
doip-sockets = "=0.2.4"
tokio = { version = "=1.54.1", features = ["rt"] }
