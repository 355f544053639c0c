[package]
name = "silius_cli"
version = "0.1.0"
edition = "2021"
publish = false

[dependencies]
ethers = { version = "*", default-features = false, features = ["ws"] }
dirs = "*"
tokio = { version = "*", features = ["rt-multi-thread", "macros", "signal"] }
