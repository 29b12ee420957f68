[package]
name = "fctools"
version = "0.1.0"
edition = "2021"
publish = false

[dependencies]
cidr = "=0.3.2"
nix = { version = "=0.29.0", features = ["user", "fs"] }
tokio = { version = "=1.54.1", features = ["process", "io-util", "fs", "rt", "sync", "time", "net"] }
serde = { version = "=1.0.229", features = ["derive"] }
serde_json = "=1.0.154"
uuid = { version = "=1.29.0", features = ["v4"] }
hyper = { version = "1", features = ["client", "http1"] }
hyper-util = { version = "0.1", features = ["tokio"] }
http-body-util = "0.1"
http = "1"
bytes = "1"

[dev-dependencies]
which = "=6.0.3"
