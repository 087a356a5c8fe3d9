[package]
name = "dapptest"
version = "0.1.0"
edition = "2021"
publish = false

[dependencies]
ethers = { version = "=2.0.14", default-features = false }
evmodin = "=0.0.1"
eyre = "=0.6.14"
hex = "=0.4.3"
tokio = { version = "=1.53.2", features = ["rt", "macros"] }
