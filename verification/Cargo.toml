[package]
name = "adguard_vpn_gui"
version = "0.1.0"
edition = "2021"
publish = false

[dependencies]
regex = "1"
tokio = { version = "1", features = ["process"] }
iced = { version = "0.14", features = ["tokio"] }
