[package]
name = "uvmon"
version = "0.1.0"
edition = "2021"
publish = false

[dependencies]
bytes = "*"
futures-util = "*"
http-body-util = "*"
hyper = { version = "*", features = ["client", "http1", "server"] }
hyper-util = { version = "*", features = ["client", "client-legacy", "http1", "server", "server-auto", "service", "tokio"] }
tokio = { version = "*", features = ["macros", "net", "rt-multi-thread", "time"] }
tower = { version = "*", features = ["util"] }
