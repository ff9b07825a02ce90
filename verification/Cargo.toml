[package]
name = "report_relay"
version = "0.1.0"
edition = "2021"
publish = false

[dependencies]
config = "*"
webhook = "*"
tokio = { version = "*", features = ["rt-multi-thread", "macros"] }
