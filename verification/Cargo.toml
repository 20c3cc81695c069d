[package]
name = "src_manage"
version = "0.1.0"
edition = "2021"
publish = false

[dependencies]
clap = { version = "*", features = ["derive"] }
dialoguer = "*"
etcetera = "*"
eyre = "*"
gix = { version = "*", features = ["blocking-network-client"] }
serde = { version = "*", features = ["derive"] }
serde_json = "*"
signal-hook = "*"
tempfile = "*"
thiserror = "*"
