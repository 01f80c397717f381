[package]
name = "p2p_fetch"
version = "0.1.0"
edition = "2021"
publish = false

[dependencies]
alloy-eips = { version = "*", default-features = false, features = ["std"] }
backon = "1"
clap = { version = "4", features = ["derive"] }
eyre = "0.6"
tokio = { version = "1", features = ["rt", "time"] }
