[package]
name = "vhost_static"
version = "0.1.0"
edition = "2021"
publish = false

[dependencies]
mime_guess = "2"
hyper = { version = "1", features = ["server", "http1"] }
hyper-util = { version = "0.1", features = ["tokio"] }
http-body-util = "0.1"
tokio = { version = "1", features = ["rt-multi-thread", "macros", "net", "fs"] }
