[package]
name = "steward"
version = "0.1.0"
edition = "2021"
publish = false

[dependencies]
console = "0.15"
hyper = { version = "0.14", features = ["client", "http1", "tcp"] }
nix = { version = "*", features = ["signal"] }
rand = "0.8"
tokio = { version = "1", features = ["io-util", "macros", "net", "process", "rt-multi-thread", "signal", "time"] }
