[package]
name = "cosi"
version = "0.1.0"
edition = "2021"
publish = false

[dependencies]
nix = { version = "*", features = ["process", "signal"] }
crossbeam-channel = "*"
glob = "*"
tokio = { version = "*", features = ["rt-multi-thread", "macros", "signal", "net", "io-util", "time"] }
