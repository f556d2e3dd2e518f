[package]
name = "hokay"
version = "0.1.0"
edition = "2021"
publish = false

[dependencies]
bytes = "=1.12.1"
clap = { version = "=4.6.7", features = ["derive"] }
futures-util = "=0.3.34"
http-body-util = "=0.1.5"
hyper = { version = "=1.12.0", features = ["http1", "server"] }
hyper-util = { version = "=0.1.21", features = ["http1", "server-graceful", "tokio"] }
tokio = { version = "=1.53.2", features = ["rt", "net", "signal", "macros", "time"] }
